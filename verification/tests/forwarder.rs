use ccg_gateway::forwarder::{
    error_reply, finish_stream, handle_non_streaming_request, handle_streaming_request,
    settle_health, stream_step, FirstByte, RequestContext, StreamAction, StreamEvent,
    StreamStart, StreamState, UpstreamResult,
};
use ccg_gateway::headers::Header;
use ccg_gateway::logging::LOGGED_BODY_LIMIT;
use ccg_gateway::models::Provider;
use ccg_gateway::stats::RequestLogInfo;
use ccg_gateway::usage::TokenUsage;
use ccg_gateway::variant::CliType;
use std::io::Write;

fn provider(threshold: i64) -> Provider {
    Provider {
        id: 1,
        cli_type: "claude_code".to_string(),
        name: "p1".to_string(),
        base_url: "http://up/v1".to_string(),
        api_key: "K".to_string(),
        enabled: 1,
        failure_threshold: threshold,
        blacklist_minutes: 10,
        consecutive_failures: 0,
        blacklisted_until: None,
        sort_order: 0,
        created_at: 0,
        updated_at: 0,
    }
}

fn ctx(cli: CliType) -> RequestContext {
    RequestContext {
        cli_type: cli,
        provider_name: "p1".to_string(),
        model_id: Some("m1".to_string()),
        client_method: "POST".to_string(),
        client_path: "/messages".to_string(),
    }
}

fn header_value<'a>(headers: &'a Vec<Header>, name: &str) -> Option<&'a [u8]> {
    headers.iter().find(|h| h.name.eq_ignore_ascii_case(name)).map(|h| h.value.as_slice())
}

fn gzip(data: &[u8]) -> Vec<u8> {
    let mut e = flate2::write::GzEncoder::new(Vec::new(), flate2::Compression::default());
    e.write_all(data).unwrap();
    e.finish().unwrap()
}

#[test]
fn error_reply_is_json_and_names_the_provider() {
    let r = error_reply(504, "Request timeout", "p1");
    assert_eq!(r.status, 504);
    assert_eq!(r.body, b"{\"error\": \"Request timeout\"}".to_vec());
    assert_eq!(header_value(&r.headers, "content-type"), Some(&b"application/json"[..]));
    assert_eq!(header_value(&r.headers, "x-ccg-provider"), Some(&b"p1"[..]));
}

#[test]
fn settle_health_reports_blacklisting_once_at_the_threshold() {
    let mut p = provider(2);
    assert!(settle_health(&mut p, false, 10, None).is_none());
    let e = settle_health(&mut p, false, 11, Some("{\"error\": \"x\"}".to_string())).unwrap();
    assert_eq!(e.level, "warn");
    assert_eq!(e.event_type, "provider_blacklisted");
    assert_eq!(e.message, "Provider p1 blacklisted due to consecutive failures");
    assert_eq!(e.provider_name, Some("p1".to_string()));
    assert_eq!(e.details, Some("{\"error\": \"x\"}".to_string()));
    assert_eq!(p.consecutive_failures, 2);
    assert_eq!(p.blacklisted_until, Some(11 + 600));
}

#[test]
fn settle_health_reports_recovery_once() {
    let mut p = provider(5);
    settle_health(&mut p, false, 10, None);
    let e = settle_health(&mut p, true, 11, None).unwrap();
    assert_eq!(e.level, "info");
    assert_eq!(e.event_type, "provider_recovered");
    assert_eq!(e.message, "Provider p1 recovered successfully");
    assert_eq!(e.provider_name, Some("p1".to_string()));
    assert_eq!(e.details, None);
    assert!(settle_health(&mut p, true, 12, None).is_none());
}

#[test]
fn buffered_success_copies_status_headers_and_body() {
    let mut p = provider(3);
    let body = b"{\"usage\":{\"input_tokens\":7,\"output_tokens\":13}}".to_vec();
    let result = UpstreamResult::Response {
        status: 200,
        headers: vec![Header::new("content-type", b"application/json"), Header::new("x-up", b"1")],
        body: Ok(body.clone()),
    };
    let out = handle_non_streaming_request(
        result,
        &mut p,
        &ctx(CliType::ClaudeCode),
        42,
        1000,
        RequestLogInfo::default(),
    );
    assert_eq!(out.reply.status, 200);
    assert_eq!(out.reply.body, body);
    let names: Vec<&str> = out.reply.headers.iter().map(|h| h.name.as_str()).collect();
    assert_eq!(names, vec!["content-type", "x-up", "X-CCG-Provider"]);
    assert_eq!(header_value(&out.reply.headers, "X-CCG-Provider"), Some(&b"p1"[..]));
    assert!(out.event.is_none());
    let r = &out.record;
    assert_eq!(r.cli_type, CliType::ClaudeCode);
    assert_eq!(r.provider_name, "p1");
    assert_eq!(r.model_id, Some("m1".to_string()));
    assert_eq!(r.status_code, Some(200));
    assert_eq!(r.elapsed_ms, 42);
    assert_eq!(r.input_tokens, 7);
    assert_eq!(r.output_tokens, 13);
    assert_eq!(r.client_method, "POST");
    assert_eq!(r.client_path, "/messages");
    assert!(r.success);
    assert_eq!(r.info.error_message, None);
    assert_eq!(r.info.provider_body, Some(String::from_utf8(body.clone()).unwrap()));
    assert_eq!(r.info.response_body, r.info.provider_body);
    assert_eq!(
        r.info.provider_headers,
        Some("{\"content-type\":\"application/json\",\"x-up\":\"1\"}".to_string())
    );
    assert_eq!(r.info.response_headers, r.info.provider_headers);
    assert_eq!(p.consecutive_failures, 0);
    assert_eq!(p.updated_at, 1000);
}

#[test]
fn buffered_non_2xx_is_forwarded_and_counts_as_failure() {
    let mut p = provider(3);
    let result = UpstreamResult::Response {
        status: 500,
        headers: vec![],
        body: Ok(b"{\"error\":\"boom\"}".to_vec()),
    };
    let out = handle_non_streaming_request(
        result,
        &mut p,
        &ctx(CliType::Codex),
        5,
        1000,
        RequestLogInfo::default(),
    );
    assert_eq!(out.reply.status, 500);
    assert_eq!(out.reply.body, b"{\"error\":\"boom\"}".to_vec());
    assert!(out.event.is_none());
    assert!(!out.record.success);
    assert_eq!(out.record.status_code, Some(500));
    assert_eq!(p.consecutive_failures, 1);
}

#[test]
fn buffered_send_error_gives_502() {
    let mut p = provider(1);
    let out = handle_non_streaming_request(
        UpstreamResult::SendError("connection refused".to_string()),
        &mut p,
        &ctx(CliType::ClaudeCode),
        9,
        1000,
        RequestLogInfo::default(),
    );
    assert_eq!(out.reply.status, 502);
    assert_eq!(out.reply.body, b"{\"error\": \"Upstream error: connection refused\"}".to_vec());
    assert_eq!(header_value(&out.reply.headers, "content-type"), Some(&b"application/json"[..]));
    assert_eq!(header_value(&out.reply.headers, "x-ccg-provider"), Some(&b"p1"[..]));
    let e = out.event.unwrap();
    assert_eq!(e.event_type, "provider_blacklisted");
    assert_eq!(e.details, Some("{\"error\": \"connection refused\"}".to_string()));
    assert_eq!(out.record.status_code, None);
    assert_eq!(out.record.input_tokens, 0);
    assert_eq!(out.record.output_tokens, 0);
    assert!(!out.record.success);
    assert_eq!(
        out.record.info.error_message,
        Some("Upstream error: connection refused".to_string())
    );
    assert_eq!(p.consecutive_failures, 1);
    assert_eq!(p.blacklisted_until, Some(1600));
}

#[test]
fn buffered_timeout_gives_504() {
    let mut p = provider(3);
    let out = handle_non_streaming_request(
        UpstreamResult::Timeout,
        &mut p,
        &ctx(CliType::ClaudeCode),
        120000,
        1000,
        RequestLogInfo::default(),
    );
    assert_eq!(out.reply.status, 504);
    assert_eq!(out.reply.body, b"{\"error\": \"Request timeout\"}".to_vec());
    assert!(out.event.is_none());
    assert_eq!(out.record.status_code, None);
    assert_eq!(out.record.info.error_message, Some("Request timeout".to_string()));
    assert!(!out.record.success);
    assert_eq!(p.consecutive_failures, 1);
}

#[test]
fn buffered_body_read_failure_gives_502_and_counts_as_failure() {
    let mut p = provider(3);
    let out = handle_non_streaming_request(
        UpstreamResult::Response {
            status: 200,
            headers: vec![Header::new("x-up", b"1")],
            body: Err("connection reset".to_string()),
        },
        &mut p,
        &ctx(CliType::ClaudeCode),
        7,
        1000,
        RequestLogInfo::default(),
    );
    assert_eq!(out.reply.status, 502);
    assert!(out.reply.body.is_empty());
    assert_eq!(out.record.status_code, Some(200));
    assert!(!out.record.success);
    assert_eq!(
        out.record.info.error_message,
        Some("Failed to read response body: connection reset".to_string())
    );
    assert_eq!(out.record.info.provider_headers, Some("{\"x-up\":\"1\"}".to_string()));
    assert_eq!(p.consecutive_failures, 1);
}

#[test]
fn buffered_gzip_is_inspected_unpacked_and_forwarded_packed() {
    let mut p = provider(3);
    let plain = b"{\"usage\":{\"input_tokens\":3,\"output_tokens\":4}}";
    let packed = gzip(plain);
    let out = handle_non_streaming_request(
        UpstreamResult::Response {
            status: 200,
            headers: vec![Header::new("Content-Encoding", b"gzip")],
            body: Ok(packed.clone()),
        },
        &mut p,
        &ctx(CliType::ClaudeCode),
        7,
        1000,
        RequestLogInfo::default(),
    );
    assert_eq!(out.reply.body, packed);
    assert_eq!(header_value(&out.reply.headers, "content-encoding"), Some(&b"gzip"[..]));
    assert_eq!(out.record.input_tokens, 3);
    assert_eq!(out.record.output_tokens, 4);
    assert_eq!(out.record.info.response_body, Some(String::from_utf8(plain.to_vec()).unwrap()));
}

#[test]
fn buffered_recovery_event_after_earlier_failure() {
    let mut p = provider(3);
    p.consecutive_failures = 2;
    let out = handle_non_streaming_request(
        UpstreamResult::Response { status: 201, headers: vec![], body: Ok(vec![]) },
        &mut p,
        &ctx(CliType::ClaudeCode),
        7,
        1000,
        RequestLogInfo::default(),
    );
    assert_eq!(out.event.unwrap().event_type, "provider_recovered");
    assert_eq!(p.consecutive_failures, 0);
}

#[test]
fn buffered_keeps_the_details_that_were_handed_in() {
    let mut p = provider(3);
    let mut info = RequestLogInfo::default();
    info.client_body = Some("cb".to_string());
    info.forward_url = Some("http://up/v1/messages".to_string());
    let out = handle_non_streaming_request(
        UpstreamResult::Timeout,
        &mut p,
        &ctx(CliType::ClaudeCode),
        7,
        1000,
        info,
    );
    assert_eq!(out.record.info.client_body, Some("cb".to_string()));
    assert_eq!(out.record.info.forward_url, Some("http://up/v1/messages".to_string()));
    assert_eq!(out.record.info.provider_body, None);
}

#[test]
fn stream_start_failures() {
    let mut p = provider(3);
    match handle_streaming_request(
        FirstByte::Timeout,
        &mut p,
        &ctx(CliType::ClaudeCode),
        60000,
        1000,
        RequestLogInfo::default(),
    ) {
        StreamStart::Failed(s) => {
            assert_eq!(s.reply.status, 504);
            assert_eq!(s.reply.body, b"{\"error\": \"First byte timeout\"}".to_vec());
            assert_eq!(s.record.info.error_message, Some("First byte timeout".to_string()));
            assert_eq!(s.record.status_code, None);
            assert!(!s.record.success);
        }
        StreamStart::Started { .. } => panic!("no head arrived"),
    }
    assert_eq!(p.consecutive_failures, 1);
    match handle_streaming_request(
        FirstByte::SendError("dns".to_string()),
        &mut p,
        &ctx(CliType::ClaudeCode),
        3,
        1000,
        RequestLogInfo::default(),
    ) {
        StreamStart::Failed(s) => {
            assert_eq!(s.reply.status, 502);
            assert_eq!(s.reply.body, b"{\"error\": \"Upstream error: dns\"}".to_vec());
            assert_eq!(s.record.info.error_message, Some("Upstream error: dns".to_string()));
        }
        StreamStart::Started { .. } => panic!("no head arrived"),
    }
    assert_eq!(p.consecutive_failures, 2);
}

#[test]
fn stream_head_goes_out_at_once() {
    let mut p = provider(3);
    p.consecutive_failures = 1;
    match handle_streaming_request(
        FirstByte::Head { status: 200, headers: vec![Header::new("content-type", b"text/event-stream")] },
        &mut p,
        &ctx(CliType::ClaudeCode),
        3,
        1000,
        RequestLogInfo::default(),
    ) {
        StreamStart::Started { head, state, log_info } => {
            assert_eq!(head.status, 200);
            assert!(head.body.is_empty());
            assert_eq!(header_value(&head.headers, "content-type"), Some(&b"text/event-stream"[..]));
            assert_eq!(header_value(&head.headers, "X-CCG-Provider"), Some(&b"p1"[..]));
            assert_eq!(state.usage, TokenUsage::default());
            assert!(state.collected.is_empty());
            assert!(!state.finished);
            assert!(!state.failed);
            assert_eq!(
                log_info.provider_headers,
                Some("{\"content-type\":\"text/event-stream\"}".to_string())
            );
        }
        StreamStart::Failed(_) => panic!("the head arrived"),
    }
    assert_eq!(p.consecutive_failures, 1);
}

#[test]
fn stream_chunks_are_forwarded_unchanged_and_in_order() {
    let mut s = StreamState::new();
    let chunks: Vec<&[u8]> = vec![b"data: {\"a\":", b"1}\n\n", b"\xff\xfe"];
    let mut seen = Vec::new();
    for c in &chunks {
        match stream_step(&mut s, StreamEvent::Chunk(c.to_vec()), CliType::ClaudeCode) {
            StreamAction::Forward(bytes) => seen.push(bytes),
            _ => panic!("a chunk is forwarded"),
        }
    }
    assert_eq!(seen, chunks.iter().map(|c| c.to_vec()).collect::<Vec<_>>());
    assert_eq!(s.collected, b"data: {\"a\":1}\n\n\xff\xfe".to_vec());
    assert!(!s.finished);
}

#[test]
fn stream_reads_usage_from_data_lines() {
    let mut s = StreamState::new();
    stream_step(
        &mut s,
        StreamEvent::Chunk(b"event: x\ndata: {\"usage\":{\"input_tokens\":4,\"output_tokens\":0}}\n\n".to_vec()),
        CliType::ClaudeCode,
    );
    assert_eq!(s.usage, TokenUsage { input_tokens: 4, output_tokens: 0 });
    stream_step(
        &mut s,
        StreamEvent::Chunk(b"data: {\"usage\":{\"output_tokens\":9}}\n\n".to_vec()),
        CliType::ClaudeCode,
    );
    assert_eq!(s.usage, TokenUsage { input_tokens: 4, output_tokens: 9 });
}

#[test]
fn stream_end_closes() {
    let mut s = StreamState::new();
    assert!(matches!(stream_step(&mut s, StreamEvent::End, CliType::Codex), StreamAction::Close));
    assert!(s.finished);
    assert!(!s.failed);
    assert_eq!(s.error_message, None);
}

#[test]
fn stream_idle_timeout_sends_the_error_frame() {
    let mut s = StreamState::new();
    match stream_step(&mut s, StreamEvent::IdleTimeout, CliType::Codex) {
        StreamAction::ForwardAndClose(frame) => assert_eq!(
            frame,
            b"event: error\ndata: {\"error\": \"Stream idle timeout\"}\n\n".to_vec()
        ),
        _ => panic!("the frame is sent"),
    }
    assert!(s.finished);
    assert!(s.failed);
    assert_eq!(s.error_message, Some("Stream idle timeout".to_string()));
}

#[test]
fn stream_error_closes_and_notes_the_error() {
    let mut s = StreamState::new();
    assert!(matches!(
        stream_step(&mut s, StreamEvent::Error("reset".to_string()), CliType::Codex),
        StreamAction::Close
    ));
    assert!(s.finished);
    assert!(s.failed);
    assert_eq!(s.error_message, Some("Stream error: reset".to_string()));
}

#[test]
fn stream_caller_gone_closes_without_blaming_the_provider() {
    let mut s = StreamState::new();
    assert!(matches!(stream_step(&mut s, StreamEvent::CallerGone, CliType::Codex), StreamAction::Close));
    assert!(s.finished);
    assert!(!s.failed);
    assert_eq!(s.error_message, Some("Caller disconnected".to_string()));
}

#[test]
fn stream_does_nothing_once_it_has_ended() {
    let mut s = StreamState::new();
    stream_step(&mut s, StreamEvent::End, CliType::Codex);
    let a = stream_step(&mut s, StreamEvent::Chunk(b"late".to_vec()), CliType::Codex);
    assert!(matches!(a, StreamAction::Close));
    assert!(s.collected.is_empty());
    let a = stream_step(&mut s, StreamEvent::IdleTimeout, CliType::Codex);
    assert!(matches!(a, StreamAction::Close));
    assert!(!s.failed);
    assert_eq!(s.error_message, None);
}

#[test]
fn stream_collector_stops_growing_at_the_limit() {
    let mut s = StreamState::new();
    stream_step(&mut s, StreamEvent::Chunk(vec![b'a'; LOGGED_BODY_LIMIT - 1]), CliType::Codex);
    assert_eq!(s.collected.len(), LOGGED_BODY_LIMIT - 1);
    stream_step(&mut s, StreamEvent::Chunk(vec![b'b'; 10]), CliType::Codex);
    assert_eq!(s.collected.len(), LOGGED_BODY_LIMIT + 9);
    let a = stream_step(&mut s, StreamEvent::Chunk(vec![b'c'; 10]), CliType::Codex);
    assert_eq!(s.collected.len(), LOGGED_BODY_LIMIT + 9);
    assert!(matches!(a, StreamAction::Forward(ref b) if b == &vec![b'c'; 10]));
}

#[test]
fn finish_stream_success() {
    let mut p = provider(3);
    let mut s = StreamState::new();
    stream_step(
        &mut s,
        StreamEvent::Chunk(b"data: {\"usage\":{\"input_tokens\":4,\"output_tokens\":5}}\n\n".to_vec()),
        CliType::ClaudeCode,
    );
    stream_step(&mut s, StreamEvent::End, CliType::ClaudeCode);
    let (event, record) = finish_stream(
        s,
        200,
        &vec![],
        &mut p,
        &ctx(CliType::ClaudeCode),
        77,
        1000,
        RequestLogInfo::default(),
    );
    assert!(event.is_none());
    assert!(record.success);
    assert_eq!(record.status_code, Some(200));
    assert_eq!(record.input_tokens, 4);
    assert_eq!(record.output_tokens, 5);
    assert_eq!(record.elapsed_ms, 77);
    assert_eq!(record.info.error_message, None);
    assert_eq!(
        record.info.response_body,
        Some("data: {\"usage\":{\"input_tokens\":4,\"output_tokens\":5}}\n\n".to_string())
    );
    assert_eq!(p.consecutive_failures, 0);
}

#[test]
fn finish_stream_reads_the_collected_body_when_lines_gave_nothing() {
    let mut p = provider(3);
    let mut s = StreamState::new();
    stream_step(&mut s, StreamEvent::Chunk(b"{\"usage\":{\"input_".to_vec()), CliType::ClaudeCode);
    stream_step(
        &mut s,
        StreamEvent::Chunk(b"tokens\":8,\"output_tokens\":9}}".to_vec()),
        CliType::ClaudeCode,
    );
    stream_step(&mut s, StreamEvent::End, CliType::ClaudeCode);
    assert_eq!(s.usage, TokenUsage::default());
    let (_, record) = finish_stream(
        s,
        200,
        &vec![],
        &mut p,
        &ctx(CliType::ClaudeCode),
        1,
        1000,
        RequestLogInfo::default(),
    );
    assert_eq!(record.input_tokens, 8);
    assert_eq!(record.output_tokens, 9);
}

#[test]
fn finish_stream_unpacks_a_gzip_body_for_the_fallback() {
    let mut p = provider(3);
    let mut s = StreamState::new();
    let packed = gzip(b"{\"usage\":{\"input_tokens\":1,\"output_tokens\":2}}");
    stream_step(&mut s, StreamEvent::Chunk(packed), CliType::ClaudeCode);
    stream_step(&mut s, StreamEvent::End, CliType::ClaudeCode);
    let (_, record) = finish_stream(
        s,
        200,
        &vec![Header::new("content-encoding", b"gzip")],
        &mut p,
        &ctx(CliType::ClaudeCode),
        1,
        1000,
        RequestLogInfo::default(),
    );
    assert_eq!(record.input_tokens, 1);
    assert_eq!(record.output_tokens, 2);
    assert_eq!(
        record.info.response_body,
        Some("{\"usage\":{\"input_tokens\":1,\"output_tokens\":2}}".to_string())
    );
}

#[test]
fn finish_stream_after_idle_timeout_is_a_failure() {
    let mut p = provider(1);
    let mut s = StreamState::new();
    stream_step(
        &mut s,
        StreamEvent::Chunk(b"data: {\"usage\":{\"input_tokens\":4,\"output_tokens\":0}}\n\n".to_vec()),
        CliType::ClaudeCode,
    );
    stream_step(&mut s, StreamEvent::IdleTimeout, CliType::ClaudeCode);
    let (event, record) = finish_stream(
        s,
        200,
        &vec![],
        &mut p,
        &ctx(CliType::ClaudeCode),
        1000,
        500,
        RequestLogInfo::default(),
    );
    assert!(!record.success);
    assert_eq!(record.status_code, Some(200));
    assert_eq!(record.input_tokens, 4);
    assert_eq!(record.info.error_message, Some("Stream idle timeout".to_string()));
    let e = event.unwrap();
    assert_eq!(e.event_type, "provider_blacklisted");
    assert_eq!(e.details, Some("Stream idle timeout".to_string()));
    assert_eq!(p.consecutive_failures, 1);
    assert_eq!(p.blacklisted_until, Some(500 + 600));
}

#[test]
fn finish_stream_with_non_2xx_status_is_a_failure() {
    let mut p = provider(3);
    let mut s = StreamState::new();
    stream_step(&mut s, StreamEvent::End, CliType::ClaudeCode);
    let (_, record) = finish_stream(
        s,
        429,
        &vec![],
        &mut p,
        &ctx(CliType::ClaudeCode),
        1,
        1000,
        RequestLogInfo::default(),
    );
    assert!(!record.success);
    assert_eq!(record.status_code, Some(429));
    assert_eq!(p.consecutive_failures, 1);
}

#[test]
fn gateway_start_event() {
    let e = ccg_gateway::forwarder::started_event("127.0.0.1:7788");
    assert_eq!(e.level, "info");
    assert_eq!(e.event_type, "gateway_started");
    assert_eq!(e.message, "CCG Gateway started on 127.0.0.1:7788");
    assert_eq!(e.provider_name, None);
    assert_eq!(e.details, None);
}
