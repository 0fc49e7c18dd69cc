use ccg_gateway::models::{ModelMapInput, Provider, ProviderCreate, ProviderUpdate};
use ccg_gateway::registry::{Registry, RegistryError};
use ccg_gateway::routing::get_available_providers;
use ccg_gateway::text::decimal;

fn create(cli: Option<&str>, name: &str) -> ProviderCreate {
    ProviderCreate {
        cli_type: cli.map(|c| c.to_string()),
        name: name.to_string(),
        base_url: "http://up".to_string(),
        api_key: "K".to_string(),
        enabled: None,
        failure_threshold: None,
        blacklist_minutes: None,
        model_maps: None,
    }
}

fn map(source: &str, target: &str, enabled: bool) -> ModelMapInput {
    ModelMapInput { source_model: source.to_string(), target_model: target.to_string(), enabled }
}

fn no_update() -> ProviderUpdate {
    ProviderUpdate {
        name: None,
        base_url: None,
        api_key: None,
        enabled: None,
        failure_threshold: None,
        blacklist_minutes: None,
        model_maps: None,
    }
}

fn row(id: i64, cli: &str, order: i64) -> Provider {
    Provider {
        id,
        cli_type: cli.to_string(),
        name: format!("p{}", id),
        base_url: "http://up".to_string(),
        api_key: "K".to_string(),
        enabled: 1,
        failure_threshold: 3,
        blacklist_minutes: 10,
        consecutive_failures: 0,
        blacklisted_until: None,
        sort_order: order,
        created_at: 0,
        updated_at: 0,
    }
}

#[test]
fn decimal_text() {
    for n in [0i64, 7, 10, 42, 1000, -1, -10, i64::MAX, i64::MIN] {
        assert_eq!(decimal(n), n.to_string());
    }
}

#[test]
fn create_fills_in_the_defaults() {
    let mut r = Registry::new();
    let (shown, event) = r.create_provider(create(None, "p1"), 100).unwrap();
    assert_eq!(shown.id, 1);
    assert_eq!(shown.cli_type, "claude_code");
    assert_eq!(shown.name, "p1");
    assert!(shown.enabled);
    assert_eq!(shown.failure_threshold, 3);
    assert_eq!(shown.blacklist_minutes, 10);
    assert_eq!(shown.consecutive_failures, 0);
    assert_eq!(shown.blacklisted_until, None);
    assert_eq!(shown.sort_order, 1);
    assert!(!shown.is_blacklisted);
    assert!(shown.model_maps.is_empty());
    assert_eq!(event.level, "info");
    assert_eq!(event.event_type, "provider_created");
    assert_eq!(event.message, "Provider p1 created");
    assert_eq!(event.provider_name, Some("p1".to_string()));
    assert_eq!(r.providers.len(), 1);
    assert_eq!(r.providers[0].created_at, 100);
    assert_eq!(r.providers[0].updated_at, 100);
}

#[test]
fn create_takes_what_is_given() {
    let mut r = Registry::new();
    r.create_provider(create(None, "p1"), 1).unwrap();
    let mut input = create(Some("gemini"), "g");
    input.enabled = Some(false);
    input.failure_threshold = Some(5);
    input.blacklist_minutes = Some(1);
    input.model_maps = Some(vec![map("a*", "A", true), map("b*", "B", false)]);
    let (shown, _) = r.create_provider(input, 2).unwrap();
    assert_eq!(shown.id, 2);
    assert_eq!(shown.sort_order, 2);
    assert_eq!(shown.cli_type, "gemini");
    assert!(!shown.enabled);
    assert_eq!(shown.failure_threshold, 5);
    assert_eq!(shown.blacklist_minutes, 1);
    assert_eq!(shown.model_maps.len(), 2);
    assert_eq!(shown.model_maps[0].id, 1);
    assert_eq!(shown.model_maps[0].source_model, "a*");
    assert!(shown.model_maps[0].enabled);
    assert_eq!(shown.model_maps[1].id, 2);
    assert_eq!(shown.model_maps[1].target_model, "B");
    assert!(!shown.model_maps[1].enabled);
    assert_eq!(r.model_maps[1].provider_id, 2);
    assert_eq!(r.model_maps[1].enabled, 0);
}

#[test]
fn names_are_unique_within_a_variant() {
    let mut r = Registry::new();
    r.create_provider(create(None, "p1"), 1).unwrap();
    assert_eq!(
        r.create_provider(create(Some("claude_code"), "p1"), 2).unwrap_err(),
        RegistryError::DuplicateName
    );
    assert_eq!(r.providers.len(), 1);
    assert!(r.create_provider(create(Some("codex"), "p1"), 3).is_ok());
    assert!(r.create_provider(create(None, "P1"), 4).is_ok());
}

#[test]
fn a_provider_has_no_two_mappings_of_one_source() {
    let mut r = Registry::new();
    let mut input = create(None, "p1");
    input.model_maps = Some(vec![map("a", "1", true), map("b", "2", true), map("a", "3", true)]);
    assert_eq!(r.create_provider(input, 1).unwrap_err(), RegistryError::DuplicateMapping);
    assert!(r.providers.is_empty());
    assert!(r.model_maps.is_empty());
}

#[test]
fn get_provider_by_id() {
    let mut r = Registry::new();
    r.create_provider(create(None, "p1"), 1).unwrap();
    assert_eq!(r.get_provider(1, 5).unwrap().name, "p1");
    assert_eq!(r.get_provider(2, 5).unwrap_err(), RegistryError::NotFound);
    r.providers[0].blacklisted_until = Some(10);
    assert!(r.get_provider(1, 9).unwrap().is_blacklisted);
    assert!(!r.get_provider(1, 10).unwrap().is_blacklisted);
}

#[test]
fn update_sets_only_what_is_given() {
    let mut r = Registry::new();
    r.create_provider(create(None, "p1"), 1).unwrap();
    let mut input = no_update();
    input.base_url = Some("http://new".to_string());
    input.enabled = Some(false);
    let (shown, event) = r.update_provider(1, input, 50).unwrap();
    assert_eq!(shown.base_url, "http://new");
    assert!(!shown.enabled);
    assert_eq!(shown.name, "p1");
    assert_eq!(shown.api_key, "K");
    assert_eq!(r.providers[0].updated_at, 50);
    assert_eq!(r.providers[0].created_at, 1);
    let e = event.unwrap();
    assert_eq!(e.event_type, "provider_updated");
    assert_eq!(e.message, "Provider p1 updated");
}

#[test]
fn update_without_anything_changes_nothing_and_reports_nothing() {
    let mut r = Registry::new();
    r.create_provider(create(None, "p1"), 1).unwrap();
    let (shown, event) = r.update_provider(1, no_update(), 50).unwrap();
    assert!(event.is_none());
    assert_eq!(shown.name, "p1");
    assert_eq!(r.providers[0].updated_at, 1);
}

#[test]
fn update_of_mappings_replaces_the_set() {
    let mut r = Registry::new();
    let mut a = create(None, "p1");
    a.model_maps = Some(vec![map("a", "A", true), map("b", "B", true)]);
    r.create_provider(a, 1).unwrap();
    let mut b = create(None, "p2");
    b.model_maps = Some(vec![map("x", "X", true)]);
    r.create_provider(b, 2).unwrap();
    let mut input = no_update();
    input.model_maps = Some(vec![map("c", "C", true)]);
    let (shown, event) = r.update_provider(1, input, 50).unwrap();
    assert!(event.is_some());
    assert_eq!(shown.model_maps.len(), 1);
    assert_eq!(shown.model_maps[0].source_model, "c");
    assert_eq!(shown.model_maps[0].id, 4);
    assert_eq!(r.model_maps.len(), 2);
    assert_eq!(r.model_maps[0].provider_id, 2);
    assert_eq!(r.model_maps[0].source_model, "x");
    assert_eq!(r.providers[0].updated_at, 1);
    let mut clear = no_update();
    clear.model_maps = Some(vec![]);
    let (shown, _) = r.update_provider(1, clear, 51).unwrap();
    assert!(shown.model_maps.is_empty());
    assert_eq!(r.model_maps.len(), 1);
}

#[test]
fn update_refusals_change_nothing() {
    let mut r = Registry::new();
    r.create_provider(create(None, "p1"), 1).unwrap();
    r.create_provider(create(None, "p2"), 2).unwrap();
    let mut rename = no_update();
    rename.name = Some("p2".to_string());
    assert_eq!(r.update_provider(1, rename, 9).unwrap_err(), RegistryError::DuplicateName);
    assert_eq!(r.providers[0].name, "p1");
    let mut same = no_update();
    same.name = Some("p1".to_string());
    assert!(r.update_provider(1, same, 9).is_ok());
    let mut maps = no_update();
    maps.model_maps = Some(vec![map("a", "1", true), map("a", "2", true)]);
    assert_eq!(r.update_provider(1, maps, 9).unwrap_err(), RegistryError::DuplicateMapping);
    assert!(r.model_maps.is_empty());
    assert_eq!(r.update_provider(7, no_update(), 9).unwrap_err(), RegistryError::NotFound);
}

#[test]
fn delete_cascades_to_the_mappings() {
    let mut r = Registry::new();
    let mut a = create(None, "p1");
    a.model_maps = Some(vec![map("a", "A", true)]);
    r.create_provider(a, 1).unwrap();
    let mut b = create(None, "p2");
    b.model_maps = Some(vec![map("x", "X", true)]);
    r.create_provider(b, 2).unwrap();
    let event = r.delete_provider(1);
    assert_eq!(event.event_type, "provider_deleted");
    assert_eq!(event.message, "Provider p1 deleted");
    assert_eq!(r.providers.len(), 1);
    assert_eq!(r.providers[0].id, 2);
    assert_eq!(r.model_maps.len(), 1);
    assert_eq!(r.model_maps[0].provider_id, 2);
    let event = r.delete_provider(9);
    assert_eq!(event.message, "Provider Provider#9 deleted");
    assert_eq!(event.provider_name, Some("Provider#9".to_string()));
    assert_eq!(r.providers.len(), 1);
}

#[test]
fn reorder_assigns_places_as_sort_orders() {
    let mut r = Registry::new();
    for name in ["a", "b", "c"] {
        r.create_provider(create(None, name), 1).unwrap();
    }
    r.reorder_providers(&vec![3, 1, 99, 2]);
    let orders: Vec<i64> = r.providers.iter().map(|p| p.sort_order).collect();
    assert_eq!(orders, vec![1, 3, 0]);
    let listed: Vec<i64> = r.get_providers(None, 0).iter().map(|p| p.id).collect();
    assert_eq!(listed, vec![3, 1, 2]);
    r.reorder_providers(&vec![1, 1]);
    assert_eq!(r.providers[0].sort_order, 1);
}

#[test]
fn reset_clears_failures_and_reports() {
    let mut r = Registry::new();
    r.create_provider(create(None, "p1"), 1).unwrap();
    r.providers[0].consecutive_failures = 4;
    r.providers[0].blacklisted_until = Some(999);
    let event = r.reset_provider_failures(1, 70);
    assert_eq!(event.level, "info");
    assert_eq!(event.event_type, "provider_reset");
    assert_eq!(event.message, "Provider p1 status manually reset");
    assert_eq!(event.provider_name, Some("p1".to_string()));
    assert_eq!(r.providers[0].consecutive_failures, 0);
    assert_eq!(r.providers[0].blacklisted_until, None);
    let event = r.reset_provider_failures(-3, 70);
    assert_eq!(event.message, "Provider Provider#-3 status manually reset");
}

#[test]
fn listing_by_variant_in_order_of_priority() {
    let mut r = Registry::new();
    r.providers = vec![row(1, "codex", 5), row(2, "gemini", 0), row(3, "codex", 1), row(4, "codex", 1)];
    let ids: Vec<i64> = r.get_providers(Some("codex"), 0).iter().map(|p| p.id).collect();
    assert_eq!(ids, vec![3, 4, 1]);
    let ids: Vec<i64> = r.get_providers(None, 0).iter().map(|p| p.id).collect();
    assert_eq!(ids, vec![2, 3, 4, 1]);
    assert!(r.get_providers(Some("claude_code"), 0).is_empty());
}

#[test]
fn rows_equal_in_sort_order_and_id_are_listed_as_they_stand() {
    let mut r = Registry::new();
    r.providers = vec![row(9, "c", 2), row(8, "c", 2), row(7, "c", 1), row(7, "c", 1)];
    let listed: Vec<(i64, String)> =
        r.get_providers(None, 0).iter().map(|p| (p.id, p.name.clone())).collect();
    assert_eq!(listed.iter().map(|p| p.0).collect::<Vec<_>>(), vec![7, 7, 8, 9]);
    assert_eq!(listed.len(), 4);
}

#[test]
fn available_providers_in_order_with_their_mappings() {
    let mut r = Registry::new();
    let mut a = create(Some("codex"), "a");
    a.model_maps = Some(vec![map("m*", "M", true), map("n*", "N", false)]);
    r.create_provider(a, 1).unwrap();
    r.create_provider(create(Some("codex"), "b"), 1).unwrap();
    r.create_provider(create(Some("gemini"), "g"), 1).unwrap();
    r.create_provider(create(Some("codex"), "c"), 1).unwrap();
    r.reorder_providers(&vec![4, 2, 1]);
    r.providers[1].blacklisted_until = Some(100);
    let list = get_available_providers(&r.providers, &r.model_maps, "codex", 50);
    let names: Vec<&str> = list.iter().map(|p| p.provider.name.as_str()).collect();
    assert_eq!(names, vec!["c", "a"]);
    assert_eq!(list[1].model_maps.len(), 1);
    assert_eq!(list[1].model_maps[0].source_model, "m*");
    let list = get_available_providers(&r.providers, &r.model_maps, "codex", 100);
    assert_eq!(list.len(), 3);
}

#[test]
fn no_id_left_is_refused() {
    let mut r = Registry::new();
    r.providers = vec![row(i64::MAX, "codex", 0)];
    assert_eq!(r.create_provider(create(None, "p"), 1).unwrap_err(), RegistryError::Full);
    assert_eq!(r.providers.len(), 1);
    assert_eq!(RegistryError::Full.message(), "No id is left");
    assert_eq!(RegistryError::NotFound.message(), "Provider not found");
}
