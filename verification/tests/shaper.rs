use ccg_gateway::headers::{
    ensure_content_type, filter_headers, hop_by_hop, set_auth_header, Header,
};
use ccg_gateway::models::{Provider, ProviderModelMap};
use ccg_gateway::proxy::{
    apply_body_model_mapping, apply_url_model_mapping, build_upstream_url, is_streaming,
    TimeoutConfig,
};
use ccg_gateway::routing::ProviderWithMaps;
use ccg_gateway::variant::{detect_cli_type, CliType};

fn header(name: &str, value: &str) -> Header {
    Header::new(name, value.as_bytes())
}

fn names(headers: &Vec<Header>) -> Vec<String> {
    headers.iter().map(|h| h.name.clone()).collect()
}

fn provider(cli_type: &str) -> Provider {
    Provider {
        id: 1,
        cli_type: cli_type.to_string(),
        name: "p1".to_string(),
        base_url: "http://up/v1".to_string(),
        api_key: "K".to_string(),
        enabled: 1,
        failure_threshold: 3,
        blacklist_minutes: 10,
        consecutive_failures: 0,
        blacklisted_until: None,
        sort_order: 0,
        created_at: 0,
        updated_at: 0,
    }
}

fn rule(id: i64, source: &str, target: &str, enabled: i64) -> ProviderModelMap {
    ProviderModelMap {
        id,
        provider_id: 1,
        source_model: source.to_string(),
        target_model: target.to_string(),
        enabled,
    }
}

fn with_rules(cli_type: &str, rules: Vec<ProviderModelMap>) -> ProviderWithMaps {
    ProviderWithMaps { provider: provider(cli_type), model_maps: rules }
}

#[test]
fn cli_type_tags() {
    assert_eq!(CliType::ClaudeCode.as_str(), "claude_code");
    assert_eq!(CliType::Codex.as_str(), "codex");
    assert_eq!(CliType::Gemini.as_str(), "gemini");
}

#[test]
fn user_agent_decides_the_variant() {
    assert_eq!(detect_cli_type(&vec![header("user-agent", "codex-cli/1.0")]), CliType::Codex);
    assert_eq!(detect_cli_type(&vec![header("User-Agent", "OpenAI/Python")]), CliType::Codex);
    assert_eq!(detect_cli_type(&vec![header("user-agent", "GeminiCLI/0.1")]), CliType::Gemini);
    assert_eq!(detect_cli_type(&vec![header("user-agent", "google-api")]), CliType::Gemini);
    assert_eq!(detect_cli_type(&vec![header("user-agent", "assistant-a/2")]), CliType::ClaudeCode);
    assert_eq!(detect_cli_type(&vec![]), CliType::ClaudeCode);
    assert_eq!(detect_cli_type(&vec![header("accept", "codex")]), CliType::ClaudeCode);
}

#[test]
fn codex_signature_wins_over_gemini_signature() {
    assert_eq!(
        detect_cli_type(&vec![header("user-agent", "gemini with openai bridge")]),
        CliType::Codex
    );
}

#[test]
fn user_agent_that_is_not_text_counts_as_empty() {
    let h = Header::new("user-agent", &[b'c', b'o', b'd', b'e', b'x', 0xff]);
    assert_eq!(detect_cli_type(&vec![h]), CliType::ClaudeCode);
}

#[test]
fn first_user_agent_header_is_read() {
    let headers = vec![header("user-agent", "curl"), header("user-agent", "codex")];
    assert_eq!(detect_cli_type(&headers), CliType::ClaudeCode);
}

#[test]
fn streaming_flag_in_body() {
    assert!(is_streaming(b"{\"stream\":true}", "/v1/messages", CliType::ClaudeCode));
    assert!(is_streaming(b"{\"stream\":true}", "/responses", CliType::Codex));
    assert!(!is_streaming(b"{\"stream\":false}", "/v1/messages", CliType::ClaudeCode));
    assert!(!is_streaming(b"{\"model\":\"m\"}", "/v1/messages", CliType::ClaudeCode));
    assert!(!is_streaming(b"{\"stream\":\"true\"}", "/v1/messages", CliType::ClaudeCode));
    assert!(!is_streaming(b"{\"stream\":1}", "/v1/messages", CliType::Codex));
    assert!(!is_streaming(b"not json", "/v1/messages", CliType::ClaudeCode));
    assert!(!is_streaming(b"", "/v1/messages", CliType::Codex));
    assert!(!is_streaming(b"[true]", "/v1/messages", CliType::Codex));
}

#[test]
fn streaming_flag_in_path_for_gemini() {
    let path = "/v1beta/models/gemini-pro:streamGenerateContent?alt=sse";
    assert!(is_streaming(b"{}", path, CliType::Gemini));
    assert!(!is_streaming(b"{\"stream\":true}", "/v1beta/models/g:generateContent", CliType::Gemini));
    assert!(!is_streaming(b"{}", "/v1beta/models/g:streamgeneratecontent", CliType::Gemini));
    assert!(!is_streaming(b"{}", path, CliType::ClaudeCode));
}

#[test]
fn hop_by_hop_names_whatever_the_case() {
    for name in [
        "host",
        "connection",
        "keep-alive",
        "transfer-encoding",
        "te",
        "trailer",
        "upgrade",
        "content-length",
        "proxy-connection",
        "proxy-authenticate",
        "proxy-authorization",
    ] {
        assert!(hop_by_hop(name));
        assert!(hop_by_hop(&name.to_uppercase()));
    }
    assert!(hop_by_hop("Keep-Alive"));
    assert!(!hop_by_hop("authorization"));
    assert!(!hop_by_hop("content-type"));
    assert!(!hop_by_hop("hosts"));
    assert!(!hop_by_hop(""));
}

#[test]
fn filter_drops_hop_by_hop_and_keeps_the_rest_in_order() {
    let headers = vec![
        header("Host", "localhost:7788"),
        header("accept", "*/*"),
        header("Content-Length", "12"),
        header("x-custom", "1"),
        header("CONNECTION", "keep-alive"),
        header("x-custom", "2"),
        header("TE", "trailers"),
    ];
    let out = filter_headers(&headers);
    assert_eq!(names(&out), vec!["accept", "x-custom", "x-custom"]);
    assert_eq!(out[0].value, b"*/*".to_vec());
    assert_eq!(out[1].value, b"1".to_vec());
    assert_eq!(out[2].value, b"2".to_vec());
}

#[test]
fn filter_is_idempotent() {
    let headers = vec![
        header("Host", "h"),
        header("accept", "a"),
        header("Upgrade", "websocket"),
        header("X-Trace", "t"),
    ];
    let once = filter_headers(&headers);
    let twice = filter_headers(&once);
    assert_eq!(names(&once), names(&twice));
    assert_eq!(once.len(), 2);
    for (a, b) in once.iter().zip(twice.iter()) {
        assert_eq!(a.value, b.value);
    }
}

#[test]
fn auth_header_by_variant() {
    let mut h = vec![header("accept", "*/*")];
    set_auth_header(&mut h, "K", CliType::ClaudeCode);
    assert_eq!(names(&h), vec!["accept", "authorization"]);
    assert_eq!(h[1].value, b"Bearer K".to_vec());

    let mut h = vec![];
    set_auth_header(&mut h, "sk-1", CliType::Codex);
    assert_eq!(names(&h), vec!["authorization"]);
    assert_eq!(h[0].value, b"Bearer sk-1".to_vec());

    let mut h = vec![];
    set_auth_header(&mut h, "G", CliType::Gemini);
    assert_eq!(names(&h), vec!["x-goog-api-key"]);
    assert_eq!(h[0].value, b"G".to_vec());
}

#[test]
fn auth_header_replaces_what_the_caller_sent() {
    let mut h = vec![
        header("Authorization", "Bearer client"),
        header("accept", "*/*"),
        header("authorization", "Bearer other"),
    ];
    set_auth_header(&mut h, "K", CliType::ClaudeCode);
    assert_eq!(names(&h), vec!["accept", "authorization"]);
    assert_eq!(h[1].value, b"Bearer K".to_vec());
}

#[test]
fn auth_header_does_not_depend_on_the_list() {
    let mut a = vec![header("x", "1"), header("authorization", "old")];
    let mut b = vec![];
    set_auth_header(&mut a, "key", CliType::Codex);
    set_auth_header(&mut b, "key", CliType::Codex);
    let la = a.last().unwrap();
    let lb = b.last().unwrap();
    assert_eq!(la.name, lb.name);
    assert_eq!(la.value, lb.value);
}

#[test]
fn credential_with_a_control_character_installs_nothing() {
    let mut h = vec![header("accept", "*/*")];
    set_auth_header(&mut h, "bad\nkey", CliType::ClaudeCode);
    assert_eq!(names(&h), vec!["accept"]);
}

#[test]
fn content_type_is_added_only_where_missing() {
    let mut h = vec![header("accept", "*/*")];
    ensure_content_type(&mut h);
    assert_eq!(names(&h), vec!["accept", "content-type"]);
    assert_eq!(h[1].value, b"application/json".to_vec());

    let mut h = vec![header("Content-Type", "text/plain")];
    ensure_content_type(&mut h);
    assert_eq!(h.len(), 1);
    assert_eq!(h[0].value, b"text/plain".to_vec());
}

#[test]
fn upstream_url_strips_trailing_slashes_of_the_base() {
    assert_eq!(
        build_upstream_url("https://api.example.com/v1", "/responses", CliType::Codex),
        "https://api.example.com/v1/responses"
    );
    assert_eq!(
        build_upstream_url("https://api.example.com/v1/", "/messages?beta=true", CliType::ClaudeCode),
        "https://api.example.com/v1/messages?beta=true"
    );
    assert_eq!(build_upstream_url("http://up///", "/x", CliType::Gemini), "http://up/x");
    assert_eq!(build_upstream_url("", "/x", CliType::Gemini), "/x");
    assert_eq!(build_upstream_url("http://up", "", CliType::Gemini), "http://up");
}

#[test]
fn body_mapping_with_no_rules_changes_nothing() {
    let body = b"{ \"model\" : \"m1\",  \"stream\": false }";
    let r = apply_body_model_mapping(&with_rules("claude_code", vec![]), body, "/v1/messages");
    assert_eq!(r.body, body.to_vec());
    assert_eq!(r.path, "/v1/messages");
    assert_eq!(r.source_model, Some("m1".to_string()));
    assert_eq!(r.target_model, None);
    assert_eq!(r.model_id(), Some("m1".to_string()));
}

#[test]
fn body_mapping_replaces_the_model() {
    let rules = vec![rule(1, "m*", "M", 1)];
    let body = b"{\"model\":\"m-pro\",\"stream\":false}";
    let r = apply_body_model_mapping(&with_rules("claude_code", rules), body, "/v1/messages");
    assert_eq!(r.source_model, Some("m-pro".to_string()));
    assert_eq!(r.target_model, Some("M".to_string()));
    assert_eq!(r.model_id(), Some("M".to_string()));
    assert_eq!(r.path, "/v1/messages");
    let sent: serde_json::Value = serde_json::from_slice(&r.body).unwrap();
    assert_eq!(sent.get("model").and_then(|v| v.as_str()), Some("M"));
    assert_eq!(sent.get("stream").and_then(|v| v.as_bool()), Some(false));
    assert_eq!(r.body, b"{\"model\":\"M\",\"stream\":false}".to_vec());
}

#[test]
fn body_mapping_first_matching_rule_wins() {
    let rules = vec![rule(1, "x*", "X", 1), rule(2, "m-*", "first", 1), rule(3, "m*", "second", 1)];
    let r = apply_body_model_mapping(
        &with_rules("codex", rules),
        b"{\"model\":\"m-pro\"}",
        "/responses",
    );
    assert_eq!(r.target_model, Some("first".to_string()));
}

#[test]
fn body_mapping_skips_disabled_rules() {
    let rules = vec![rule(1, "m*", "off", 0), rule(2, "m*", "on", 1)];
    let r = apply_body_model_mapping(
        &with_rules("codex", rules),
        b"{\"model\":\"m-pro\"}",
        "/responses",
    );
    assert_eq!(r.target_model, Some("on".to_string()));
}

#[test]
fn body_mapping_without_match_keeps_the_body() {
    let rules = vec![rule(1, "gpt-*", "G", 1)];
    let body = b"{\"model\":\"m-pro\"}";
    let r = apply_body_model_mapping(&with_rules("codex", rules), body, "/responses");
    assert_eq!(r.body, body.to_vec());
    assert_eq!(r.source_model, Some("m-pro".to_string()));
    assert_eq!(r.target_model, None);
}

#[test]
fn body_mapping_on_a_body_without_model() {
    let rules = vec![rule(1, "*", "M", 1)];
    for body in [&b"not json"[..], &b"{\"stream\":true}"[..], &b"{\"model\":7}"[..], &b"[1]"[..]] {
        let r = apply_body_model_mapping(&with_rules("codex", rules_clone(&rules)), body, "/p");
        assert_eq!(r.body, body.to_vec());
        assert_eq!(r.source_model, None);
        assert_eq!(r.target_model, None);
        assert_eq!(r.model_id(), None);
    }
}

fn rules_clone(rules: &Vec<ProviderModelMap>) -> Vec<ProviderModelMap> {
    rules.iter().map(|r| r.duplicate()).collect()
}

#[test]
fn url_mapping_replaces_the_model_in_the_path() {
    let rules = vec![rule(1, "gemini-*", "gemini-2.0", 1)];
    let p = with_rules("gemini", vec![]);
    let r = apply_url_model_mapping(&p, "/v1beta/models/gemini-pro:generateContent", &rules);
    assert_eq!(r.path, "/v1beta/models/gemini-2.0:generateContent");
    assert_eq!(r.source_model, Some("gemini-pro".to_string()));
    assert_eq!(r.target_model, Some("gemini-2.0".to_string()));
    assert!(r.body.is_empty());
}

#[test]
fn url_mapping_with_no_rules_changes_nothing() {
    let p = with_rules("gemini", vec![]);
    let path = "/v1beta/models/gemini-pro:streamGenerateContent?alt=sse";
    let r = apply_url_model_mapping(&p, path, &[]);
    assert_eq!(r.path, path);
    assert_eq!(r.source_model, Some("gemini-pro".to_string()));
    assert_eq!(r.target_model, None);
}

#[test]
fn url_mapping_model_ends_at_slash_or_colon() {
    let p = with_rules("gemini", vec![]);
    let r = apply_url_model_mapping(&p, "/models/abc/def", &[]);
    assert_eq!(r.source_model, Some("abc".to_string()));
    let r = apply_url_model_mapping(&p, "/models/abc", &[]);
    assert_eq!(r.source_model, Some("abc".to_string()));
    let r = apply_url_model_mapping(&p, "/models/a?key=1", &[]);
    assert_eq!(r.source_model, Some("a?key=1".to_string()));
}

#[test]
fn url_mapping_without_model_in_the_path() {
    let p = with_rules("gemini", vec![]);
    let rules = vec![rule(1, "*", "M", 1)];
    for path in ["/v1beta/files", "/models/", "/models/:x", "/model/abc", ""] {
        let r = apply_url_model_mapping(&p, path, &rules);
        assert_eq!(r.path, path);
        assert_eq!(r.source_model, None);
        assert_eq!(r.target_model, None);
    }
}

#[test]
fn url_mapping_takes_the_first_model_that_is_named() {
    let p = with_rules("gemini", vec![]);
    let r = apply_url_model_mapping(&p, "/models//models/x:go", &[]);
    assert_eq!(r.source_model, Some("x".to_string()));
}

#[test]
fn url_mapping_replaces_every_occurrence() {
    let p = with_rules("gemini", vec![]);
    let rules = vec![rule(1, "a", "T", 1)];
    let r = apply_url_model_mapping(&p, "/models/a/models/ab", &rules);
    assert_eq!(r.path, "/models/T/models/Tb");
}

#[test]
fn timeout_config_from_db_and_default() {
    let t = TimeoutConfig::from_db(30, 60, 120);
    assert_eq!(t.first_byte_timeout, 30);
    assert_eq!(t.idle_timeout, 60);
    assert_eq!(t.non_stream_timeout, 120);
    let d = TimeoutConfig::default();
    assert_eq!(d.first_byte_timeout, 60);
    assert_eq!(d.idle_timeout, 30);
    assert_eq!(d.non_stream_timeout, 120);
    assert_eq!(TimeoutConfig::from_db(-1, 0, i64::MIN).first_byte_timeout, u64::MAX);
    assert_eq!(TimeoutConfig::from_db(-1, 0, i64::MIN).idle_timeout, 0);
    assert_eq!(TimeoutConfig::from_db(-1, 0, i64::MIN).non_stream_timeout, 1u64 << 63);
    assert_eq!(t.first_deadline(true), 30);
    assert_eq!(t.first_deadline(false), 120);
}
