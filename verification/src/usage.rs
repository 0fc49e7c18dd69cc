//! Token-usage extraction from response bodies and from the lines of an event stream.

use crate::json::{i64_of, json_parsed, json_tree, member, parse_document, JsonTree};
use crate::text::{
    chars_of, decode_lossy, find_char, has_prefix, index_of, lemma_index_of, occurs_at_index,
    string_of_range, trim_bounds, trimmed, utf8_lossy,
};
use crate::variant::CliType;
use serde_json::Value;
use vstd::prelude::*;

verus! {

/// The token counts of one request.
#[derive(Debug, Clone, Copy, PartialEq, Eq, Structural)]
pub struct TokenUsage {
    pub input_tokens: i64,
    pub output_tokens: i64,
}

impl Default for TokenUsage {
    fn default() -> (r: Self)
        ensures
            r == (TokenUsage { input_tokens: 0, output_tokens: 0 }),
    {
        TokenUsage { input_tokens: 0, output_tokens: 0 }
    }
}

/// The whole number under `key`, where `t` is an object that has one there.
pub open spec fn whole_member(t: JsonTree, key: Seq<char>) -> Option<i64> {
    match t.member(key) {
        Some(v) => v.as_i64(),
        None => None,
    }
}

/// The whole number under `key`, or under `fallback` where `t` has no member `key`.
pub open spec fn whole_member_or(t: JsonTree, key: Seq<char>, fallback: Seq<char>) -> Option<
    i64,
> {
    match t.member(key) {
        Some(v) => v.as_i64(),
        None => whole_member(t, fallback),
    }
}

/// The usage record of a document: `usage` inside the member `outer` where that exists, else
/// `usage` at the root.
pub open spec fn usage_object(t: JsonTree, outer: Seq<char>) -> Option<JsonTree> {
    match t.member(outer) {
        Some(o) => match o.member("usage"@) {
            Some(u) => Some(u),
            None => t.member("usage"@),
        },
        None => t.member("usage"@),
    }
}

/// `a + b`, held at the ends of the range of `i64`.
pub open spec fn held_sum(a: i64, b: i64) -> i64 {
    if a + b > i64::MAX {
        i64::MAX
    } else if a + b < i64::MIN {
        i64::MIN
    } else {
        (a + b) as i64
    }
}

/// `found` where there is one, else `before`.
pub open spec fn or_before(found: Option<i64>, before: i64) -> i64 {
    match found {
        Some(n) => n,
        None => before,
    }
}

/// The token counts after a document of the given variant has been read: each count that the
/// document gives replaces the count held before.
pub open spec fn usage_after(t: JsonTree, cli: CliType, before: TokenUsage) -> TokenUsage {
    match cli {
        CliType::ClaudeCode => match usage_object(t, "message"@) {
            Some(u) => TokenUsage {
                input_tokens: or_before(whole_member(u, "input_tokens"@), before.input_tokens),
                output_tokens: or_before(
                    whole_member(u, "output_tokens"@),
                    before.output_tokens,
                ),
            },
            None => before,
        },
        CliType::Codex => match usage_object(t, "response"@) {
            Some(u) => TokenUsage {
                input_tokens: or_before(
                    whole_member_or(u, "input_tokens"@, "prompt_tokens"@),
                    before.input_tokens,
                ),
                output_tokens: or_before(
                    whole_member_or(u, "output_tokens"@, "completion_tokens"@),
                    before.output_tokens,
                ),
            },
            None => before,
        },
        CliType::Gemini => match t.member("usageMetadata"@) {
            Some(m) => TokenUsage {
                input_tokens: or_before(
                    whole_member(m, "promptTokenCount"@),
                    before.input_tokens,
                ),
                output_tokens: held_sum(
                    or_before(whole_member(m, "candidatesTokenCount"@), 0),
                    or_before(whole_member(m, "thoughtsTokenCount"@), 0),
                ),
            },
            None => before,
        },
    }
}

/// The token counts after a response body has been read: a body that is no JSON document
/// changes nothing.
pub open spec fn usage_after_body(body: Seq<u8>, cli: CliType, before: TokenUsage) -> TokenUsage {
    match json_parsed(body) {
        Some(t) => usage_after(t, cli, before),
        None => before,
    }
}

fn whole_at(v: &Value, key: &str) -> (r: Option<i64>)
    ensures
        r == whole_member(json_tree(*v), key@),
{
    match member(v, key) {
        Some(x) => i64_of(x),
        None => None,
    }
}

fn whole_at_or(v: &Value, key: &str, fallback: &str) -> (r: Option<i64>)
    ensures
        r == whole_member_or(json_tree(*v), key@, fallback@),
{
    match member(v, key) {
        Some(x) => i64_of(x),
        None => whole_at(v, fallback),
    }
}

fn usage_object_of<'a>(doc: &'a Value, outer: &str) -> (r: Option<&'a Value>)
    ensures
        match r {
            Some(u) => usage_object(json_tree(*doc), outer@) == Some(json_tree(*u)),
            None => usage_object(json_tree(*doc), outer@) is None,
        },
{
    match member(doc, outer) {
        Some(o) => match member(o, "usage") {
            Some(u) => Some(u),
            None => member(doc, "usage"),
        },
        None => member(doc, "usage"),
    }
}

/// `a + b`, held at the ends of the range of `i64`.
pub fn add_held(a: i64, b: i64) -> (r: i64)
    ensures
        r == held_sum(a, b),
{
    if b > 0 && a > i64::MAX - b {
        i64::MAX
    } else if b < 0 && a < i64::MIN - b {
        i64::MIN
    } else {
        a + b
    }
}

/// Reads the token counts that a parsed document of the given variant carries.
pub fn read_usage(doc: &Value, cli_type: CliType, usage: &mut TokenUsage)
    ensures
        *final(usage) == usage_after(json_tree(*doc), cli_type, *old(usage)),
{
    match cli_type {
        CliType::ClaudeCode => {
            if let Some(u) = usage_object_of(doc, "message") {
                if let Some(input) = whole_at(u, "input_tokens") {
                    usage.input_tokens = input;
                }
                if let Some(output) = whole_at(u, "output_tokens") {
                    usage.output_tokens = output;
                }
            }
        },
        CliType::Codex => {
            if let Some(u) = usage_object_of(doc, "response") {
                if let Some(input) = whole_at_or(u, "input_tokens", "prompt_tokens") {
                    usage.input_tokens = input;
                }
                if let Some(output) = whole_at_or(u, "output_tokens", "completion_tokens") {
                    usage.output_tokens = output;
                }
            }
        },
        CliType::Gemini => {
            if let Some(m) = member(doc, "usageMetadata") {
                if let Some(prompt) = whole_at(m, "promptTokenCount") {
                    usage.input_tokens = prompt;
                }
                let candidates: i64 = match whole_at(m, "candidatesTokenCount") {
                    Some(n) => n,
                    None => 0,
                };
                let thoughts: i64 = match whole_at(m, "thoughtsTokenCount") {
                    Some(n) => n,
                    None => 0,
                };
                usage.output_tokens = add_held(candidates, thoughts);
            }
        },
    }
}

/// Reads the token counts from a response body.
pub fn parse_token_usage(data: &[u8], cli_type: CliType, usage: &mut TokenUsage)
    ensures
        *final(usage) == usage_after_body(data@, cli_type, *old(usage)),
{
    match parse_document(data) {
        Some(doc) => read_usage(&doc, cli_type, usage),
        None => {},
    }
}

/// What follows `data:` on a line of an event stream, one space after the colon left out; a
/// line that does not begin with `data:` carries nothing.
pub open spec fn sse_payload(line: Seq<char>) -> Option<Seq<char>> {
    if has_prefix(line, "data: "@) {
        Some(line.skip(6))
    } else if has_prefix(line, "data:"@) {
        Some(line.skip(5))
    } else {
        None
    }
}

/// The token counts after one line of an event stream has been read. The end marker
/// `[DONE]` and lines without data change nothing.
pub open spec fn usage_after_line(line: Seq<char>, cli: CliType, before: TokenUsage)
    -> TokenUsage {
    match sse_payload(line) {
        Some(payload) => if trimmed(payload) == "[DONE]"@ {
            before
        } else {
            usage_after_body(vstd::utf8::encode_utf8(payload), cli, before)
        },
        None => before,
    }
}

/// Reads the token counts from `line[from..to]`, one line of an event stream.
pub(crate) fn read_sse_line(
    text: &Vec<char>,
    from: usize,
    to: usize,
    cli_type: CliType,
    usage: &mut TokenUsage,
)
    requires
        from <= to <= text.len(),
    ensures
        *final(usage) == usage_after_line(
            text@.subrange(from as int, to as int),
            cli_type,
            *old(usage),
        ),
{
    let ghost line = text@.subrange(from as int, to as int);
    proof {
        reveal_strlit("data: ");
        reveal_strlit("data:");
    }
    let long = chars_of("data: ");
    let short = chars_of("data:");
    let start: usize = if to - from >= 6 && occurs_at_index(text, from, &long) {
        assert(line.subrange(0, 6) =~= text@.subrange(from as int, from + 6));
        from + 6
    } else if to - from >= 5 && occurs_at_index(text, from, &short) {
        assert(line.subrange(0, 5) =~= text@.subrange(from as int, from + 5));
        assert(to - from >= 6 ==> line.subrange(0, 6) =~= text@.subrange(
            from as int,
            from + 6,
        ));
        from + 5
    } else {
        assert(to - from >= 5 ==> line.subrange(0, 5) =~= text@.subrange(
            from as int,
            from + 5,
        ));
        assert(to - from >= 6 ==> line.subrange(0, 6) =~= text@.subrange(
            from as int,
            from + 6,
        ));
        return ;
    };
    let ghost payload = text@.subrange(start as int, to as int);
    assert(payload =~= line.skip(start - from));
    let (a, b) = trim_bounds(text, start, to);
    let done = chars_of("[DONE]");
    if b - a == done.len() && occurs_at_index(text, a, &done) {
        return ;
    }
    let data = string_of_range(text, start, to);
    parse_token_usage(data.as_str().as_bytes(), cli_type, usage);
}

/// Reads the token counts from one line of an event stream.
pub fn parse_streaming_token_usage(line: &str, cli_type: CliType, usage: &mut TokenUsage)
    ensures
        *final(usage) == usage_after_line(line@, cli_type, *old(usage)),
{
    let text = chars_of(line);
    assert(text@.subrange(0, text.len() as int) =~= line@);
    read_sse_line(&text, 0, text.len(), cli_type, usage);
}

/// The first line of `text`: what stands before the first line feed, a carriage return just
/// before that line feed left out.
pub open spec fn first_line(text: Seq<char>) -> Seq<char> {
    let e = index_of(text, '\n');
    if 0 < e < text.len() && text[e - 1] == '\r' {
        text.subrange(0, e - 1)
    } else {
        text.subrange(0, e)
    }
}

/// What follows the first line of `text` and its line feed.
pub open spec fn after_first_line(text: Seq<char>) -> Seq<char> {
    let e = index_of(text, '\n');
    if 0 <= e < text.len() {
        text.skip(e + 1)
    } else {
        Seq::empty()
    }
}

/// The token counts after every line of `text` has been read in order: a later line that
/// gives a count replaces what an earlier line gave.
pub open spec fn usage_after_text(text: Seq<char>, cli: CliType, before: TokenUsage)
    -> TokenUsage
    decreases text.len(),
{
    if text.len() == 0 {
        before
    } else {
        usage_after_text(
            after_first_line(text),
            cli,
            usage_after_line(first_line(text), cli, before),
        )
    }
}

/// Reads the token counts from every line of a piece of an event stream.
pub fn read_sse_text(text: &Vec<char>, cli_type: CliType, usage: &mut TokenUsage)
    ensures
        *final(usage) == usage_after_text(text@, cli_type, *old(usage)),
{
    let ghost start = *usage;
    let len: usize = text.len();
    let mut pos: usize = 0;
    assert(text@.skip(0) =~= text@);
    while pos < len
        invariant
            len == text.len(),
            pos <= len,
            usage_after_text(text@, cli_type, start) == usage_after_text(
                text@.skip(pos as int),
                cli_type,
                *usage,
            ),
        decreases len - pos,
    {
        let ghost rest = text@.skip(pos as int);
        let e: usize = find_char(text, pos, '\n');
        proof {
            lemma_index_of(rest, '\n');
        }
        let line_to: usize = if e < len && e > pos && text[e - 1] == '\r' {
            e - 1
        } else {
            e
        };
        assert(first_line(rest) =~= text@.subrange(pos as int, line_to as int));
        read_sse_line(text, pos, line_to, cli_type, usage);
        if e < len {
            assert(after_first_line(rest) =~= text@.skip(e + 1));
            pos = e + 1;
        } else {
            assert(after_first_line(rest) =~= text@.skip(len as int));
            pos = len;
        }
    }
}

/// Reads the token counts from one chunk of a streamed response: the chunk is read as text,
/// line by line.
pub fn read_sse_chunk(chunk: &[u8], cli_type: CliType, usage: &mut TokenUsage)
    ensures
        *final(usage) == usage_after_text(utf8_lossy(chunk@), cli_type, *old(usage)),
{
    let text = decode_lossy(chunk);
    let chars = chars_of(text.as_str());
    read_sse_text(&chars, cli_type, usage);
}

} // verus!
