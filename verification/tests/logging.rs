use ccg_gateway::headers::Header;
use ccg_gateway::logging::{
    encoding_is_gzip, maybe_decompress, serialize_headers, truncate_body, width_of,
    LOGGED_BODY_LIMIT,
};
use std::io::Write;

fn gzip(data: &[u8]) -> Vec<u8> {
    let mut e = flate2::write::GzEncoder::new(Vec::new(), flate2::Compression::default());
    e.write_all(data).unwrap();
    e.finish().unwrap()
}

#[test]
fn limit_is_100_kib() {
    assert_eq!(LOGGED_BODY_LIMIT, 100 * 1024);
}

#[test]
fn short_body_is_logged_whole() {
    assert_eq!(truncate_body(b""), "");
    assert_eq!(truncate_body(b"{\"a\":1}"), "{\"a\":1}");
    let exact = vec![b'x'; LOGGED_BODY_LIMIT];
    assert_eq!(truncate_body(&exact).len(), LOGGED_BODY_LIMIT);
}

#[test]
fn long_body_is_cut_and_marked() {
    let long = vec![b'x'; LOGGED_BODY_LIMIT + 1];
    let logged = truncate_body(&long);
    assert_eq!(logged.len(), LOGGED_BODY_LIMIT + "...[truncated]".len());
    assert!(logged.ends_with("...[truncated]"));
    assert!(logged.starts_with("xxxx"));
}

#[test]
fn cut_falls_on_a_character_boundary() {
    let mut long = vec![b'x'; LOGGED_BODY_LIMIT - 1];
    long.extend_from_slice("\u{e9}\u{e9}".as_bytes());
    let logged = truncate_body(&long);
    assert_eq!(logged.len(), LOGGED_BODY_LIMIT - 1 + "...[truncated]".len());
    assert!(logged.ends_with("x...[truncated]"));
}

#[test]
fn bytes_that_are_no_text_are_replaced() {
    assert_eq!(truncate_body(&[b'a', 0xff, b'b']), "a\u{fffd}b");
}

#[test]
fn width_of_characters() {
    assert_eq!(width_of('a'), 1);
    assert_eq!(width_of('\u{7f}'), 1);
    assert_eq!(width_of('\u{80}'), 2);
    assert_eq!(width_of('\u{7ff}'), 2);
    assert_eq!(width_of('\u{800}'), 3);
    assert_eq!(width_of('\u{ffff}'), 3);
    assert_eq!(width_of('\u{10000}'), 4);
    for c in ['a', '\u{e9}', '\u{20ac}', '\u{1f600}'] {
        assert_eq!(width_of(c), c.len_utf8());
    }
}

#[test]
fn gzip_is_named_whatever_the_case() {
    assert!(encoding_is_gzip(Some("gzip")));
    assert!(encoding_is_gzip(Some("GZIP")));
    assert!(encoding_is_gzip(Some("x-gzip, br")));
    assert!(!encoding_is_gzip(Some("br")));
    assert!(!encoding_is_gzip(Some("")));
    assert!(!encoding_is_gzip(None));
}

#[test]
fn gzip_body_is_unpacked_for_inspection() {
    let plain = b"{\"usage\":{\"input_tokens\":7,\"output_tokens\":13}}";
    let packed = gzip(plain);
    assert_ne!(packed, plain.to_vec());
    assert_eq!(maybe_decompress(&packed, Some("gzip")), plain.to_vec());
    assert_eq!(maybe_decompress(&packed, Some("GZip")), plain.to_vec());
}

#[test]
fn body_stays_as_it_is_without_gzip_or_when_it_cannot_be_unpacked() {
    let plain = b"plain text";
    let packed = gzip(plain);
    assert_eq!(maybe_decompress(&packed, None), packed);
    assert_eq!(maybe_decompress(&packed, Some("br")), packed);
    assert_eq!(maybe_decompress(plain, Some("gzip")), plain.to_vec());
    assert_eq!(maybe_decompress(b"", Some("gzip")), Vec::<u8>::new());
}

#[test]
fn headers_are_logged_as_a_json_object() {
    let headers = vec![
        Header::new("Content-Type", b"application/json"),
        Header::new("X-Id", b"7"),
    ];
    assert_eq!(serialize_headers(&headers), "{\"content-type\":\"application/json\",\"x-id\":\"7\"}");
    assert_eq!(serialize_headers(&vec![]), "{}");
}

#[test]
fn logged_headers_skip_values_that_are_no_text_and_keep_the_later_of_two() {
    let headers = vec![
        Header::new("a", b"1"),
        Header::new("bin", &[0xff, 0x00]),
        Header::new("A", b"2"),
        Header::new("q", b"say \"hi\""),
    ];
    let text = serialize_headers(&headers);
    let doc: serde_json::Value = serde_json::from_str(&text).unwrap();
    let obj = doc.as_object().unwrap();
    assert_eq!(obj.len(), 2);
    assert_eq!(obj.get("a").and_then(|v| v.as_str()), Some("2"));
    assert_eq!(obj.get("q").and_then(|v| v.as_str()), Some("say \"hi\""));
}
