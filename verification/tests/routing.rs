use ccg_gateway::models::{Provider, ProviderModelMap};
use ccg_gateway::routing::{load_maps, select_provider};

fn provider(id: i64, cli: &str, name: &str, order: i64) -> Provider {
    Provider {
        id,
        cli_type: cli.to_string(),
        name: name.to_string(),
        base_url: "http://up".to_string(),
        api_key: "K".to_string(),
        enabled: 1,
        failure_threshold: 3,
        blacklist_minutes: 10,
        consecutive_failures: 0,
        blacklisted_until: None,
        sort_order: order,
        created_at: 0,
        updated_at: 0,
    }
}

fn rule(id: i64, provider_id: i64, source: &str, target: &str, enabled: i64) -> ProviderModelMap {
    ProviderModelMap {
        id,
        provider_id,
        source_model: source.to_string(),
        target_model: target.to_string(),
        enabled,
    }
}

#[test]
fn nothing_is_selected_from_an_empty_table() {
    assert!(select_provider(&[], &[], "claude_code", 0).is_none());
}

#[test]
fn selects_by_sort_order_then_id() {
    let providers = vec![
        provider(5, "codex", "c", 2),
        provider(4, "codex", "b", 1),
        provider(3, "codex", "a", 1),
        provider(1, "gemini", "g", 0),
    ];
    let found = select_provider(&providers, &[], "codex", 0).unwrap();
    assert_eq!(found.provider.id, 3);
    assert_eq!(found.provider.name, "a");
}

#[test]
fn skips_other_variants_disabled_and_blacklisted() {
    let mut disabled = provider(1, "codex", "off", 0);
    disabled.enabled = 0;
    let mut blacklisted = provider(2, "codex", "out", 1);
    blacklisted.blacklisted_until = Some(1000);
    let providers =
        vec![disabled, blacklisted, provider(3, "gemini", "g", 2), provider(4, "codex", "ok", 9)];
    assert_eq!(select_provider(&providers, &[], "codex", 999).unwrap().provider.id, 4);
}

#[test]
fn blacklist_ends_at_the_expiry() {
    let mut p = provider(1, "codex", "p", 0);
    p.blacklisted_until = Some(1000);
    let providers = vec![p];
    assert!(select_provider(&providers, &[], "codex", 999).is_none());
    assert!(select_provider(&providers, &[], "codex", 1000).is_some());
    assert!(select_provider(&providers, &[], "codex", 1001).is_some());
}

#[test]
fn loads_enabled_maps_of_the_provider_in_insertion_order() {
    let providers = vec![provider(7, "codex", "p", 0)];
    let maps = vec![
        rule(1, 7, "a*", "A", 1),
        rule(2, 8, "b*", "B", 1),
        rule(3, 7, "c*", "C", 0),
        rule(4, 7, "d*", "D", 1),
    ];
    let found = select_provider(&providers, &maps, "codex", 0).unwrap();
    let ids: Vec<i64> = found.model_maps.iter().map(|m| m.id).collect();
    assert_eq!(ids, vec![1, 4]);
    assert_eq!(found.model_maps[1].source_model, "d*");
    assert_eq!(found.model_maps[1].target_model, "D");
    assert_eq!(load_maps(&maps, 8).len(), 1);
    assert_eq!(load_maps(&maps, 9).len(), 0);
}

#[test]
fn selected_provider_is_a_copy_of_the_row() {
    let mut p = provider(1, "gemini", "g1", 3);
    p.consecutive_failures = 2;
    p.blacklisted_until = Some(5);
    let found = select_provider(&[p], &[], "gemini", 10).unwrap();
    assert_eq!(found.provider.name, "g1");
    assert_eq!(found.provider.base_url, "http://up");
    assert_eq!(found.provider.api_key, "K");
    assert_eq!(found.provider.consecutive_failures, 2);
    assert_eq!(found.provider.blacklisted_until, Some(5));
    assert_eq!(found.provider.sort_order, 3);
}
