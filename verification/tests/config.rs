use ccg_gateway::config::{get_data_dir, join_path, parse_port, Config, Environment};
use ccg_gateway::handlers::{default_page, default_page_size, full_path, page_window};

fn env(port: Option<&str>, host: Option<&str>, dir: Option<&str>, home: Option<&str>) -> Environment {
    Environment {
        gateway_port: port.map(|s| s.to_string()),
        gateway_host: host.map(|s| s.to_string()),
        data_dir: dir.map(|s| s.to_string()),
        home_dir: home.map(|s| s.to_string()),
    }
}

#[test]
fn defaults() {
    let c = Config::load(&env(None, None, None, Some("/home/u")));
    assert_eq!(c.server.port, 7788);
    assert_eq!(c.server.host, "127.0.0.1");
    assert_eq!(c.database.path, "/home/u/.ccg-gateway/ccg_gateway.db");
    assert_eq!(c.database.log_path, "/home/u/.ccg-gateway/ccg_logs.db");
}

#[test]
fn overrides() {
    let c = Config::load(&env(Some("8080"), Some("0.0.0.0"), Some("/data/"), Some("/home/u")));
    assert_eq!(c.server.port, 8080);
    assert_eq!(c.server.host, "0.0.0.0");
    assert_eq!(c.database.path, "/data/ccg_gateway.db");
    assert_eq!(c.database.log_path, "/data/ccg_logs.db");
}

#[test]
fn port_that_is_no_port_falls_back() {
    for bad in ["", "abc", "65536", "-1", "80 ", " 80", "8o", "+", "99999999999999999999"] {
        assert_eq!(Config::load(&env(Some(bad), None, None, None)).server.port, 7788);
        assert_eq!(parse_port(bad), None);
    }
}

#[test]
fn port_texts() {
    assert_eq!(parse_port("0"), Some(0));
    assert_eq!(parse_port("80"), Some(80));
    assert_eq!(parse_port("+443"), Some(443));
    assert_eq!(parse_port("00080"), Some(80));
    assert_eq!(parse_port("65535"), Some(65535));
    for text in ["0", "7", "+7", "007", "65535", "65536", "x", "", "+", "-0", "1e3"] {
        assert_eq!(parse_port(text), text.parse::<u16>().ok());
    }
}

#[test]
fn data_dir_order() {
    assert_eq!(get_data_dir(&env(None, None, Some("/d"), Some("/h"))), "/d");
    assert_eq!(get_data_dir(&env(None, None, None, Some("/h"))), "/h/.ccg-gateway");
    assert_eq!(get_data_dir(&env(None, None, None, None)), "./.ccg-gateway");
}

#[test]
fn paths_are_joined_with_one_slash() {
    assert_eq!(join_path("/a", "b"), "/a/b");
    assert_eq!(join_path("/a/", "b"), "/a/b");
    assert_eq!(join_path("", "b"), "b");
    assert_eq!(join_path("/", "b"), "/b");
}

#[test]
fn page_defaults_and_window() {
    assert_eq!(default_page(), 1);
    assert_eq!(default_page_size(), 20);
    let w = page_window(1, 20);
    assert_eq!((w.page, w.page_size, w.offset), (1, 20, 0));
    let w = page_window(3, 50);
    assert_eq!((w.page, w.page_size, w.offset), (3, 50, 100));
    let w = page_window(0, 0);
    assert_eq!((w.page, w.page_size, w.offset), (1, 1, 0));
    let w = page_window(-5, 1000);
    assert_eq!((w.page, w.page_size, w.offset), (1, 100, 0));
    let w = page_window(i64::MAX, 100);
    assert_eq!((w.page, w.page_size, w.offset), (i64::MAX, 100, i64::MAX));
}

#[test]
fn full_path_keeps_the_query() {
    assert_eq!(full_path("/v1/messages", None), "/v1/messages");
    assert_eq!(full_path("/v1/messages", Some("beta=true&x=1")), "/v1/messages?beta=true&x=1");
    assert_eq!(full_path("/p", Some("")), "/p?");
}
