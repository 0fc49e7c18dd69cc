//! What goes into the request log: bodies cut to size, gzip unpacked, headers as JSON.

use crate::headers::{header_views, text_of_value, value_text, Header};
use crate::json::{empty_object, json_text, json_tree, render_text, set_text_member, JsonTree};
use crate::text::{
    chars_of, contains_chars, contains_seq, decode_lossy, lower_chars, lower_seq, opt_str_view,
    string_of, string_of_range, utf8_lossy,
};
use serde_json::Value;
use std::io::Read;
use vstd::prelude::*;
use vstd::slice::slice_to_vec;

verus! {

/// The largest size, in bytes of UTF-8, at which a body is logged whole: 100 KiB.
pub const LOGGED_BODY_LIMIT: usize = 102400;

/// The number of bytes that the UTF-8 form of `c` takes.
pub open spec fn char_width(c: char) -> nat {
    if (c as u32) < 0x80 {
        1
    } else if (c as u32) < 0x800 {
        2
    } else if (c as u32) < 0x10000 {
        3
    } else {
        4
    }
}

/// The number of bytes that the UTF-8 form of `s` takes.
pub open spec fn utf8_len(s: Seq<char>) -> nat
    decreases s.len(),
{
    if s.len() == 0 {
        0
    } else {
        utf8_len(s.drop_last()) + char_width(s.last())
    }
}

/// The length of the longest prefix of `s` whose UTF-8 form takes at most `limit` bytes.
pub open spec fn kept_chars(s: Seq<char>, limit: nat) -> int
    decreases s.len(),
{
    if s.len() == 0 || utf8_len(s) <= limit {
        s.len() as int
    } else {
        kept_chars(s.drop_last(), limit)
    }
}

/// A body's text as it is logged: whole where its UTF-8 form takes at most 100 KiB, else the
/// longest prefix that does, followed by a marker.
pub open spec fn logged_text(text: Seq<char>) -> Seq<char> {
    if utf8_len(text) <= LOGGED_BODY_LIMIT {
        text
    } else {
        text.take(kept_chars(text, LOGGED_BODY_LIMIT as nat)) + "...[truncated]"@
    }
}

proof fn lemma_utf8_len_prefix(s: Seq<char>, n: int)
    requires
        0 <= n <= s.len(),
    ensures
        utf8_len(s.take(n)) <= utf8_len(s),
    decreases s.len() - n,
{
    if n < s.len() {
        lemma_utf8_len_prefix(s, n + 1);
        assert(s.take(n + 1).drop_last() =~= s.take(n));
    } else {
        assert(s.take(n) =~= s);
    }
}

proof fn lemma_kept_chars(s: Seq<char>, limit: nat, n: int)
    requires
        0 <= n < s.len(),
        utf8_len(s.take(n)) <= limit,
        utf8_len(s.take(n + 1)) > limit,
    ensures
        kept_chars(s, limit) == n,
    decreases s.len(),
{
    lemma_utf8_len_prefix(s, n + 1);
    if s.len() == n + 1 {
        assert(s.take(n + 1) =~= s);
        assert(s.drop_last() =~= s.take(n));
        let t = s.take(n);
        if t.len() > 0 {
            assert(kept_chars(t, limit) == t.len());
        }
    } else {
        assert(s.drop_last().take(n) =~= s.take(n));
        assert(s.drop_last().take(n + 1) =~= s.take(n + 1));
        lemma_kept_chars(s.drop_last(), limit, n);
    }
}

/// The number of bytes that the UTF-8 form of `c` takes.
pub fn width_of(c: char) -> (r: usize)
    ensures
        r == char_width(c),
{
    let code: u32 = c as u32;
    if code < 0x80 {
        1
    } else if code < 0x800 {
        2
    } else if code < 0x10000 {
        3
    } else {
        4
    }
}

/// The text under which a request or response body is logged.
pub fn truncate_body(body: &[u8]) -> (r: String)
    ensures
        r@ == logged_text(utf8_lossy(body@)),
{
    let text = decode_lossy(body);
    let chars = chars_of(text.as_str());
    let mut n: usize = 0;
    let mut total: usize = 0;
    assert(chars@.take(0) =~= Seq::<char>::empty());
    while n < chars.len()
        invariant
            n <= chars.len(),
            chars@ == utf8_lossy(body@),
            total == utf8_len(chars@.take(n as int)),
            total <= LOGGED_BODY_LIMIT,
        decreases chars.len() - n,
    {
        let w = width_of(chars[n]);
        assert(chars@.take(n + 1).drop_last() =~= chars@.take(n as int));
        if total + w > LOGGED_BODY_LIMIT {
            proof {
                lemma_kept_chars(chars@, LOGGED_BODY_LIMIT as nat, n as int);
                lemma_utf8_len_prefix(chars@, n + 1);
                assert(chars@.take(n as int) =~= chars@.subrange(0, n as int));
            }
            let head = string_of_range(&chars, 0, n);
            return head.concat("...[truncated]");
        }
        total = total + w;
        n += 1;
    }
    assert(chars@.take(n as int) =~= chars@);
    text
}

/// The bytes that gunzipping `bytes` with `flate2` gives, if they are one gzip member that
/// can be read to its end.
pub uninterp spec fn gunzipped(bytes: Seq<u8>) -> Option<Seq<u8>>;

/// Reads `bytes` to the end through `flate2::read::GzDecoder`. The contract names what was
/// read; nothing is claimed about which inputs can be read.
#[verifier::external_body]
pub(crate) fn gunzip(bytes: &[u8]) -> (r: Option<Vec<u8>>)
    ensures
        match r {
            Some(out) => gunzipped(bytes@) == Some(out@),
            None => gunzipped(bytes@) is None,
        },
{
    let mut out = Vec::new();
    match flate2::read::GzDecoder::new(bytes).read_to_end(&mut out) {
        Ok(_) => Some(out),
        Err(_) => None,
    }
}

/// Whether a content encoding names gzip, letter case aside.
pub open spec fn names_gzip(encoding: Option<Seq<char>>) -> bool {
    match encoding {
        Some(e) => contains_seq(lower_seq(e), "gzip"@),
        None => false,
    }
}

/// The body to inspect, given what gunzipping it gave: the gunzipped bytes where the
/// encoding names gzip and the body could be gunzipped, else the body itself.
pub open spec fn inspected_body(
    body: Seq<u8>,
    encoding: Option<Seq<char>>,
    unzipped: Option<Seq<u8>>,
) -> Seq<u8> {
    if names_gzip(encoding) {
        match unzipped {
            Some(out) => out,
            None => body,
        }
    } else {
        body
    }
}

/// Whether a content encoding names gzip.
pub fn encoding_is_gzip(content_encoding: Option<&str>) -> (r: bool)
    ensures
        r == names_gzip(opt_str_view(content_encoding)),
{
    match content_encoding {
        Some(e) => {
            let low = lower_chars(&chars_of(e));
            let needle = chars_of("gzip");
            contains_chars(&low, &needle)
        },
        None => false,
    }
}

/// The body to inspect for logging and token counts: gunzipped where the response says it
/// is gzip and it can be gunzipped, else as it is. What is sent on is never this copy.
pub fn maybe_decompress(body: &[u8], content_encoding: Option<&str>) -> (r: Vec<u8>)
    ensures
        r@ == inspected_body(body@, opt_str_view(content_encoding), gunzipped(body@)),
{
    if encoding_is_gzip(content_encoding) {
        match gunzip(body) {
            Some(out) => {
                return out;
            },
            None => {},
        }
    }
    slice_to_vec(body)
}

/// The members of the object under which headers are logged: each header whose value is
/// text, under its name in lower case; of two headers of one name the later stands.
pub open spec fn header_members(entries: Seq<(Seq<char>, Seq<u8>)>) -> Map<Seq<char>, JsonTree>
    decreases entries.len(),
{
    if entries.len() == 0 {
        Map::empty()
    } else {
        let earlier = header_members(entries.drop_last());
        match value_text(entries.last().1) {
            Some(text) => earlier.insert(lower_seq(entries.last().0), JsonTree::Text(text)),
            None => earlier,
        }
    }
}

/// The text under which a header list is logged: the JSON object of `header_members`.
pub open spec fn logged_headers(entries: Seq<(Seq<char>, Seq<u8>)>) -> Seq<char> {
    match json_text(JsonTree::Object(header_members(entries))) {
        Some(text) => text,
        None => Seq::empty(),
    }
}

/// The text under which a header list is logged.
pub fn serialize_headers(headers: &Vec<Header>) -> (r: String)
    ensures
        r@ == logged_headers(header_views(headers@)),
{
    let mut doc: Value = empty_object();
    let mut i: usize = 0;
    assert(header_views(headers@).take(0) =~= Seq::empty());
    while i < headers.len()
        invariant
            i <= headers.len(),
            json_tree(doc) == JsonTree::Object(
                header_members(header_views(headers@).take(i as int)),
            ),
        decreases headers.len() - i,
    {
        proof {
            let longer = header_views(headers@).take(i + 1);
            assert(longer.drop_last() =~= header_views(headers@).take(i as int));
            assert(longer.last() == headers@[i as int]@);
        }
        match text_of_value(headers[i].value.as_slice()) {
            Some(text) => {
                let key = string_of(&lower_chars(&chars_of(headers[i].name.as_str())));
                let value = string_of(&text);
                set_text_member(&mut doc, key.as_str(), value.as_str());
            },
            None => {},
        }
        i += 1;
    }
    assert(header_views(headers@).take(headers.len() as int) =~= header_views(headers@));
    match render_text(&doc) {
        Some(text) => text,
        None => String::new(),
    }
}

} // verus!
