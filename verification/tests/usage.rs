use ccg_gateway::usage::{
    add_held, parse_streaming_token_usage, parse_token_usage, read_sse_chunk, read_usage,
    TokenUsage,
};
use ccg_gateway::variant::CliType;

fn usage(input: i64, output: i64) -> TokenUsage {
    TokenUsage { input_tokens: input, output_tokens: output }
}

fn parsed(body: &str, cli: CliType) -> TokenUsage {
    let mut u = TokenUsage::default();
    parse_token_usage(body.as_bytes(), cli, &mut u);
    u
}

#[test]
fn default_usage_is_zero() {
    assert_eq!(TokenUsage::default(), usage(0, 0));
}

#[test]
fn assistant_a_reads_root_usage() {
    let u = parsed("{\"usage\":{\"input_tokens\":7,\"output_tokens\":13}}", CliType::ClaudeCode);
    assert_eq!(u, usage(7, 13));
}

#[test]
fn assistant_a_prefers_message_usage() {
    let body = "{\"message\":{\"usage\":{\"input_tokens\":5,\"output_tokens\":6}},\
                \"usage\":{\"input_tokens\":1,\"output_tokens\":2}}";
    assert_eq!(parsed(body, CliType::ClaudeCode), usage(5, 6));
}

#[test]
fn assistant_a_falls_back_to_root_when_message_has_no_usage() {
    let body = "{\"message\":{\"id\":\"x\"},\"usage\":{\"input_tokens\":1,\"output_tokens\":2}}";
    assert_eq!(parsed(body, CliType::ClaudeCode), usage(1, 2));
}

#[test]
fn assistant_a_does_not_read_prompt_tokens() {
    let body = "{\"usage\":{\"prompt_tokens\":9,\"completion_tokens\":8}}";
    assert_eq!(parsed(body, CliType::ClaudeCode), usage(0, 0));
}

#[test]
fn counts_that_are_missing_keep_what_was_held() {
    let mut u = usage(3, 4);
    parse_token_usage(b"{\"usage\":{\"output_tokens\":9}}", CliType::ClaudeCode, &mut u);
    assert_eq!(u, usage(3, 9));
    parse_token_usage(b"{\"usage\":{\"input_tokens\":\"many\"}}", CliType::ClaudeCode, &mut u);
    assert_eq!(u, usage(3, 9));
    parse_token_usage(b"{\"other\":1}", CliType::ClaudeCode, &mut u);
    assert_eq!(u, usage(3, 9));
    parse_token_usage(b"garbage", CliType::ClaudeCode, &mut u);
    assert_eq!(u, usage(3, 9));
}

#[test]
fn numbers_that_are_no_whole_i64_are_not_read() {
    let mut u = usage(1, 2);
    parse_token_usage(
        b"{\"usage\":{\"input_tokens\":1.5,\"output_tokens\":18446744073709551615}}",
        CliType::ClaudeCode,
        &mut u,
    );
    assert_eq!(u, usage(1, 2));
    parse_token_usage(
        b"{\"usage\":{\"input_tokens\":-4,\"output_tokens\":9223372036854775807}}",
        CliType::ClaudeCode,
        &mut u,
    );
    assert_eq!(u, usage(-4, i64::MAX));
}

#[test]
fn assistant_c_reads_response_usage_first() {
    let body = "{\"response\":{\"usage\":{\"input_tokens\":11,\"output_tokens\":12}},\
                \"usage\":{\"input_tokens\":1,\"output_tokens\":2}}";
    assert_eq!(parsed(body, CliType::Codex), usage(11, 12));
}

#[test]
fn assistant_c_falls_back_to_root_usage() {
    let body = "{\"usage\":{\"input_tokens\":21,\"output_tokens\":22}}";
    assert_eq!(parsed(body, CliType::Codex), usage(21, 22));
    let body = "{\"response\":{\"id\":\"r\"},\"usage\":{\"input_tokens\":3,\"output_tokens\":4}}";
    assert_eq!(parsed(body, CliType::Codex), usage(3, 4));
}

#[test]
fn assistant_c_falls_back_to_prompt_and_completion_tokens() {
    let body = "{\"usage\":{\"prompt_tokens\":31,\"completion_tokens\":32}}";
    assert_eq!(parsed(body, CliType::Codex), usage(31, 32));
    let body = "{\"usage\":{\"input_tokens\":1,\"prompt_tokens\":31,\
                \"output_tokens\":2,\"completion_tokens\":32}}";
    assert_eq!(parsed(body, CliType::Codex), usage(1, 2));
    let body = "{\"response\":{\"usage\":{\"prompt_tokens\":5,\"completion_tokens\":6}}}";
    assert_eq!(parsed(body, CliType::Codex), usage(5, 6));
}

#[test]
fn assistant_g_sums_candidates_and_thoughts() {
    let body = "{\"usageMetadata\":{\"promptTokenCount\":4,\
                \"candidatesTokenCount\":10,\"thoughtsTokenCount\":5}}";
    assert_eq!(parsed(body, CliType::Gemini), usage(4, 15));
    let body = "{\"usageMetadata\":{\"promptTokenCount\":4,\"candidatesTokenCount\":10}}";
    assert_eq!(parsed(body, CliType::Gemini), usage(4, 10));
    let body = "{\"usageMetadata\":{\"thoughtsTokenCount\":3}}";
    assert_eq!(parsed(body, CliType::Gemini), usage(0, 3));
}

#[test]
fn assistant_g_resets_output_when_metadata_has_no_counts() {
    let mut u = usage(8, 9);
    parse_token_usage(b"{\"usageMetadata\":{}}", CliType::Gemini, &mut u);
    assert_eq!(u, usage(8, 0));
    let mut u = usage(8, 9);
    parse_token_usage(b"{\"usage\":{\"input_tokens\":1}}", CliType::Gemini, &mut u);
    assert_eq!(u, usage(8, 9));
}

#[test]
fn sum_is_held_at_the_ends_of_the_range() {
    assert_eq!(add_held(1, 2), 3);
    assert_eq!(add_held(i64::MAX, 1), i64::MAX);
    assert_eq!(add_held(i64::MIN, -1), i64::MIN);
    assert_eq!(add_held(i64::MAX, i64::MIN), -1);
    let body = "{\"usageMetadata\":{\"candidatesTokenCount\":9223372036854775807,\
                \"thoughtsTokenCount\":5}}";
    assert_eq!(parsed(body, CliType::Gemini), usage(0, i64::MAX));
}

#[test]
fn read_usage_on_a_parsed_document() {
    let doc: serde_json::Value =
        serde_json::from_str("{\"usage\":{\"input_tokens\":2,\"output_tokens\":3}}").unwrap();
    let mut u = TokenUsage::default();
    read_usage(&doc, CliType::ClaudeCode, &mut u);
    assert_eq!(u, usage(2, 3));
    let mut u = TokenUsage::default();
    read_usage(&doc, CliType::Gemini, &mut u);
    assert_eq!(u, usage(0, 0));
}

#[test]
fn streaming_line_with_and_without_space() {
    let mut u = TokenUsage::default();
    parse_streaming_token_usage(
        "data: {\"usage\":{\"input_tokens\":4,\"output_tokens\":0}}",
        CliType::ClaudeCode,
        &mut u,
    );
    assert_eq!(u, usage(4, 0));
    parse_streaming_token_usage(
        "data:{\"usage\":{\"input_tokens\":5,\"output_tokens\":6}}",
        CliType::ClaudeCode,
        &mut u,
    );
    assert_eq!(u, usage(5, 6));
}

#[test]
fn streaming_line_that_is_no_data_is_ignored() {
    let mut u = usage(1, 1);
    for line in [
        "event: message_delta",
        "",
        ": comment",
        "Data: {\"usage\":{\"input_tokens\":9}}",
        " data: {\"usage\":{\"input_tokens\":9}}",
        "data: [DONE]",
        "data:[DONE]",
        "data:   [DONE]  ",
        "data: not json",
    ] {
        parse_streaming_token_usage(line, CliType::ClaudeCode, &mut u);
        assert_eq!(u, usage(1, 1));
    }
}

#[test]
fn streaming_last_value_wins() {
    let mut u = TokenUsage::default();
    let chunk = "event: a\ndata: {\"usage\":{\"input_tokens\":1,\"output_tokens\":2}}\n\n\
                 event: b\r\ndata: {\"usage\":{\"input_tokens\":3,\"output_tokens\":4}}\r\n\r\n\
                 data: [DONE]\n\n";
    read_sse_chunk(chunk.as_bytes(), CliType::ClaudeCode, &mut u);
    assert_eq!(u, usage(3, 4));
}

#[test]
fn streaming_chunk_for_each_variant() {
    let mut u = TokenUsage::default();
    read_sse_chunk(
        b"data: {\"response\":{\"usage\":{\"input_tokens\":7,\"output_tokens\":8}}}\n",
        CliType::Codex,
        &mut u,
    );
    assert_eq!(u, usage(7, 8));
    let mut u = TokenUsage::default();
    read_sse_chunk(
        b"data: {\"usageMetadata\":{\"promptTokenCount\":2,\"candidatesTokenCount\":3}}",
        CliType::Gemini,
        &mut u,
    );
    assert_eq!(u, usage(2, 3));
}

#[test]
fn streaming_chunk_with_bytes_that_are_no_text() {
    let mut u = TokenUsage::default();
    let mut chunk = vec![0xff, 0xfe, b'\n'];
    chunk.extend_from_slice(b"data: {\"usage\":{\"input_tokens\":1,\"output_tokens\":1}}\n");
    read_sse_chunk(&chunk, CliType::ClaudeCode, &mut u);
    assert_eq!(u, usage(1, 1));
}
