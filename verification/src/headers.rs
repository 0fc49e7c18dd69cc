//! Header lists: what is passed on, how the credential is installed, what may stand in a
//! value.

use crate::text::{chars_eq, chars_of, eq_ignore_case, lower_chars, lower_seq};
use crate::variant::CliType;
use vstd::prelude::*;
use vstd::slice::slice_to_vec;

verus! {

/// One header line: its name and the bytes of its value.
#[derive(Debug, Clone)]
pub struct Header {
    pub name: String,
    pub value: Vec<u8>,
}

impl View for Header {
    type V = (Seq<char>, Seq<u8>);

    open spec fn view(&self) -> (Seq<char>, Seq<u8>) {
        (self.name@, self.value@)
    }
}

impl Header {
    /// A header of this name and value.
    pub fn new(name: &str, value: &[u8]) -> (h: Header)
        ensures
            h@ == (name@, value@),
    {
        Header { name: String::from_str(name), value: slice_to_vec(value) }
    }

    /// A second header with the same name and value.
    pub fn duplicate(&self) -> (h: Header)
        ensures
            h@ == self@,
    {
        let value = self.value.clone();
        assert(value@ =~= self.value@);
        Header { name: self.name.clone(), value }
    }
}

/// A header list as contracts see it: the pairs of name and value, in order.
pub open spec fn header_views(headers: Seq<Header>) -> Seq<(Seq<char>, Seq<u8>)> {
    Seq::new(headers.len(), |i: int| headers[i]@)
}

/// Whether a header of this name concerns one connection only and is not passed on.
pub open spec fn is_hop_by_hop(name: Seq<char>) -> bool {
    let n = lower_seq(name);
    n == "host"@ || n == "connection"@ || n == "keep-alive"@ || n == "transfer-encoding"@ || n
        == "te"@ || n == "trailer"@ || n == "upgrade"@ || n == "content-length"@ || n
        == "proxy-connection"@ || n == "proxy-authenticate"@ || n == "proxy-authorization"@
}

/// The entries that are passed on.
pub open spec fn forwardable() -> spec_fn((Seq<char>, Seq<u8>)) -> bool {
    |e: (Seq<char>, Seq<u8>)| !is_hop_by_hop(e.0)
}

/// The header list without its hop-by-hop entries, the others in their order.
pub open spec fn filtered(entries: Seq<(Seq<char>, Seq<u8>)>) -> Seq<(Seq<char>, Seq<u8>)> {
    entries.filter(forwardable())
}

fn name_is(lowered: &Vec<char>, literal: &str) -> (r: bool)
    ensures
        r == (lowered@ == literal@),
{
    let lit = chars_of(literal);
    chars_eq(lowered, &lit)
}

/// Whether a header of this name is hop-by-hop.
pub fn hop_by_hop(name: &str) -> (r: bool)
    ensures
        r == is_hop_by_hop(name@),
{
    let n = lower_chars(&chars_of(name));
    name_is(&n, "host") || name_is(&n, "connection") || name_is(&n, "keep-alive") || name_is(
        &n,
        "transfer-encoding",
    ) || name_is(&n, "te") || name_is(&n, "trailer") || name_is(&n, "upgrade") || name_is(
        &n,
        "content-length",
    ) || name_is(&n, "proxy-connection") || name_is(&n, "proxy-authenticate") || name_is(
        &n,
        "proxy-authorization",
    )
}

/// The headers to send upstream: every header but the hop-by-hop ones, unchanged and in order.
pub fn filter_headers(headers: &Vec<Header>) -> (out: Vec<Header>)
    ensures
        header_views(out@) == filtered(header_views(headers@)),
{
    let mut out: Vec<Header> = Vec::new();
    let mut i: usize = 0;
    proof {
        reveal(Seq::filter);
        assert(header_views(headers@).take(0) =~= Seq::empty());
        assert(header_views(out@) =~= Seq::empty());
    }
    while i < headers.len()
        invariant
            i <= headers.len(),
            header_views(out@) == filtered(header_views(headers@).take(i as int)),
        decreases headers.len() - i,
    {
        let ghost before = header_views(headers@).take(i as int);
        let ghost old_out = header_views(out@);
        proof {
            assert(header_views(headers@).take(i + 1) =~= before.push(headers@[i as int]@));
            before.lemma_filter_push(headers@[i as int]@, forwardable());
        }
        if !hop_by_hop(headers[i].name.as_str()) {
            out.push(headers[i].duplicate());
            assert(header_views(out@) =~= old_out.push(headers@[i as int]@));
        }
        i += 1;
    }
    assert(header_views(headers@).take(headers.len() as int) =~= header_views(headers@));
    out
}

/// Filtering a list twice gives what filtering it once gives.
pub proof fn lemma_filter_idempotent(entries: Seq<(Seq<char>, Seq<u8>)>)
    ensures
        filtered(filtered(entries)) == filtered(entries),
{
    let once = filtered(entries);
    assert forall|i: int| 0 <= i < once.len() implies forwardable()(#[trigger] once[i]) by {
        entries.lemma_filter_pred(forwardable(), i);
    }
    lemma_filter_keeps_all(once);
}

proof fn lemma_filter_keeps_all(s: Seq<(Seq<char>, Seq<u8>)>)
    requires
        forall|i: int| 0 <= i < s.len() ==> forwardable()(#[trigger] s[i]),
    ensures
        filtered(s) == s,
    decreases s.len(),
{
    reveal(Seq::filter);
    if s.len() > 0 {
        lemma_filter_keeps_all(s.drop_last());
        assert(s =~= s.drop_last().push(s.last()));
    }
}

/// No hop-by-hop name is left after filtering, however its letters are cased; every entry
/// left was in the list.
pub proof fn lemma_filter_drops_hop_by_hop(entries: Seq<(Seq<char>, Seq<u8>)>, i: int)
    requires
        0 <= i < filtered(entries).len(),
    ensures
        !is_hop_by_hop(filtered(entries)[i].0),
        entries.contains(filtered(entries)[i]),
{
    entries.lemma_filter_pred(forwardable(), i);
    entries.lemma_filter_contains_rev(forwardable(), filtered(entries)[i]);
}

/// The entries whose name is not `name`, letter case aside.
pub open spec fn not_named(name: Seq<char>) -> spec_fn((Seq<char>, Seq<u8>)) -> bool {
    |e: (Seq<char>, Seq<u8>)| !eq_ignore_case(e.0, name)
}

/// The list in which `name` has the single value `value`: earlier entries of that name are
/// dropped, the new one stands last.
pub open spec fn with_header(
    entries: Seq<(Seq<char>, Seq<u8>)>,
    name: Seq<char>,
    value: Seq<u8>,
) -> Seq<(Seq<char>, Seq<u8>)> {
    entries.filter(not_named(name)).push((name, value))
}

/// Whether some entry is named `name`, letter case aside.
pub open spec fn has_header(entries: Seq<(Seq<char>, Seq<u8>)>, name: Seq<char>) -> bool {
    exists|i: int| 0 <= i < entries.len() && eq_ignore_case(#[trigger] entries[i].0, name)
}

/// The value of the first entry named `name`, letter case aside.
pub open spec fn first_value(entries: Seq<(Seq<char>, Seq<u8>)>, name: Seq<char>) -> Option<
    Seq<u8>,
>
    decreases entries.len(),
{
    if entries.len() == 0 {
        None
    } else if eq_ignore_case(entries[0].0, name) {
        Some(entries[0].1)
    } else {
        first_value(entries.skip(1), name)
    }
}

/// Whether a byte may stand in a header value: no control character but the tab.
pub open spec fn value_byte_ok(b: u8) -> bool {
    (b >= 32 && b != 127) || b == 9
}

/// Whether every byte of `value` may stand in a header value.
pub open spec fn value_ok(value: Seq<u8>) -> bool {
    forall|i: int| 0 <= i < value.len() ==> value_byte_ok(#[trigger] value[i])
}

/// Whether a byte is printable ASCII or the tab.
pub open spec fn visible_byte(b: u8) -> bool {
    (b >= 32 && b < 127) || b == 9
}

/// The text of a header value: its bytes as characters where all are printable ASCII or tabs.
pub open spec fn value_text(value: Seq<u8>) -> Option<Seq<char>> {
    if forall|i: int| 0 <= i < value.len() ==> visible_byte(#[trigger] value[i]) {
        Some(Seq::new(value.len(), |i: int| value[i] as char))
    } else {
        None
    }
}

/// Whether two header names are the same, letter case aside.
pub fn same_name(a: &str, b: &str) -> (r: bool)
    ensures
        r == eq_ignore_case(a@, b@),
{
    let la = lower_chars(&chars_of(a));
    let lb = lower_chars(&chars_of(b));
    chars_eq(&la, &lb)
}

/// Whether every byte of `value` may stand in a header value.
pub fn check_value(value: &[u8]) -> (r: bool)
    ensures
        r == value_ok(value@),
{
    let mut i: usize = 0;
    while i < value.len()
        invariant
            i <= value.len(),
            forall|j: int| 0 <= j < i ==> value_byte_ok(#[trigger] value@[j]),
        decreases value.len() - i,
    {
        let b: u8 = value[i];
        if !((b >= 32 && b != 127) || b == 9) {
            return false;
        }
        i += 1;
    }
    true
}

/// The text that a header value holds, if it is text.
pub fn text_of_value(value: &[u8]) -> (r: Option<Vec<char>>)
    ensures
        match r {
            Some(t) => value_text(value@) == Some(t@),
            None => value_text(value@) is None,
        },
{
    let mut out: Vec<char> = Vec::new();
    let mut i: usize = 0;
    while i < value.len()
        invariant
            i <= value.len(),
            out@.len() == i,
            forall|j: int| 0 <= j < i ==> visible_byte(#[trigger] value@[j]),
            forall|j: int| 0 <= j < i ==> out@[j] == value@[j] as char,
        decreases value.len() - i,
    {
        let b: u8 = value[i];
        if !((b >= 32 && b < 127) || b == 9) {
            return None;
        }
        out.push(b as char);
        i += 1;
    }
    assert(out@ =~= Seq::new(value@.len(), |i: int| value@[i] as char));
    Some(out)
}

/// The index of the first header named `name`, letter case aside.
pub fn find_header(headers: &Vec<Header>, name: &str) -> (r: Option<usize>)
    ensures
        match r {
            Some(i) => i < headers.len() && first_value(header_views(headers@), name@) == Some(
                headers@[i as int].value@,
            ) && eq_ignore_case(headers@[i as int].name@, name@),
            None => first_value(header_views(headers@), name@) is None && !has_header(
                header_views(headers@),
                name@,
            ),
        },
{
    let ghost all = header_views(headers@);
    let mut i: usize = 0;
    assert(all.skip(0) =~= all);
    while i < headers.len()
        invariant
            i <= headers.len(),
            all == header_views(headers@),
            first_value(all, name@) == first_value(all.skip(i as int), name@),
            forall|j: int| 0 <= j < i ==> !eq_ignore_case(#[trigger] all[j].0, name@),
        decreases headers.len() - i,
    {
        assert(all.skip(i as int)[0] == all[i as int]);
        assert(all.skip(i as int).skip(1) =~= all.skip(i + 1));
        if same_name(headers[i].name.as_str(), name) {
            return Some(i);
        }
        i += 1;
    }
    None
}

/// Gives `name` the single value `value`.
pub fn install_header(headers: &mut Vec<Header>, name: &str, value: Vec<u8>)
    ensures
        header_views(final(headers)@) == with_header(header_views(old(headers)@), name@, value@),
{
    let mut out: Vec<Header> = Vec::new();
    let mut i: usize = 0;
    proof {
        reveal(Seq::filter);
        assert(header_views(headers@).take(0) =~= Seq::empty());
        assert(header_views(out@) =~= Seq::empty());
    }
    while i < headers.len()
        invariant
            i <= headers.len(),
            *headers == *old(headers),
            header_views(out@) == header_views(headers@).take(i as int).filter(not_named(name@)),
        decreases headers.len() - i,
    {
        let ghost before = header_views(headers@).take(i as int);
        let ghost old_out = header_views(out@);
        proof {
            assert(header_views(headers@).take(i + 1) =~= before.push(headers@[i as int]@));
            before.lemma_filter_push(headers@[i as int]@, not_named(name@));
        }
        if !same_name(headers[i].name.as_str(), name) {
            out.push(headers[i].duplicate());
            assert(header_views(out@) =~= old_out.push(headers@[i as int]@));
        }
        i += 1;
    }
    assert(header_views(headers@).take(headers.len() as int) =~= header_views(headers@));
    let ghost kept = header_views(out@);
    out.push(Header { name: String::from_str(name), value });
    assert(header_views(out@) =~= kept.push((name@, value@)));
    *headers = out;
}

/// The name of the header that carries the credential for a variant.
pub open spec fn auth_name(variant: CliType) -> Seq<char> {
    match variant {
        CliType::Gemini => "x-goog-api-key"@,
        _ => "authorization"@,
    }
}

/// The text of the header that carries the credential for a variant.
pub open spec fn auth_text(variant: CliType, credential: Seq<char>) -> Seq<char> {
    match variant {
        CliType::Gemini => credential,
        _ => "Bearer "@ + credential,
    }
}

/// The value of the header that carries the credential: the UTF-8 bytes of its text.
pub open spec fn auth_value(variant: CliType, credential: Seq<char>) -> Seq<u8> {
    vstd::utf8::encode_utf8(auth_text(variant, credential))
}

/// The name and value of the credential header for `cli_type`, or nothing where the
/// credential holds a byte that no header value may hold.
pub fn auth_header(api_key: &str, cli_type: CliType) -> (r: Option<Header>)
    ensures
        match r {
            Some(h) => value_ok(auth_value(cli_type, api_key@)) && h@ == (
                auth_name(cli_type),
                auth_value(cli_type, api_key@),
            ),
            None => !value_ok(auth_value(cli_type, api_key@)),
        },
{
    let (name, text) = match cli_type {
        CliType::ClaudeCode => ("authorization", String::from_str("Bearer ").concat(api_key)),
        CliType::Codex => ("authorization", String::from_str("Bearer ").concat(api_key)),
        CliType::Gemini => ("x-goog-api-key", String::from_str(api_key)),
    };
    let value = text.as_str().as_bytes_vec();
    if check_value(value.as_slice()) {
        Some(Header { name: String::from_str(name), value })
    } else {
        None
    }
}

/// The list with the credential installed for a variant: the credential header has the
/// single value `auth_value`. A credential that no header value may hold changes nothing.
pub open spec fn with_auth(
    entries: Seq<(Seq<char>, Seq<u8>)>,
    variant: CliType,
    credential: Seq<char>,
) -> Seq<(Seq<char>, Seq<u8>)> {
    if value_ok(auth_value(variant, credential)) {
        with_header(entries, auth_name(variant), auth_value(variant, credential))
    } else {
        entries
    }
}

/// The list with `content-type: application/json` added where it names no content type.
pub open spec fn with_content_type(entries: Seq<(Seq<char>, Seq<u8>)>) -> Seq<
    (Seq<char>, Seq<u8>),
> {
    if has_header(entries, "content-type"@) {
        entries
    } else {
        entries.push(("content-type"@, vstd::utf8::encode_utf8("application/json"@)))
    }
}

/// Installs the provider's credential in the header that the variant reads it from. A
/// credential that no header value may hold leaves the list as it is.
pub fn set_auth_header(headers: &mut Vec<Header>, api_key: &str, cli_type: CliType)
    ensures
        header_views(final(headers)@) == with_auth(header_views(old(headers)@), cli_type, api_key@),
{
    match auth_header(api_key, cli_type) {
        Some(h) => {
            let Header { name, value } = h;
            install_header(headers, name.as_str(), value);
        },
        None => {},
    }
}

/// Adds `content-type: application/json` where the list names no content type.
pub fn ensure_content_type(headers: &mut Vec<Header>)
    ensures
        header_views(final(headers)@) == with_content_type(header_views(old(headers)@)),
{
    let found = find_header(headers, "content-type");
    if found.is_none() {
        let ghost before = header_views(headers@);
        let value = "application/json".as_bytes_vec();
        headers.push(Header { name: String::from_str("content-type"), value });
        assert(header_views(headers@) =~= before.push(("content-type"@, value@)));
    } else {
        let ghost i = found.unwrap() as int;
        assert(eq_ignore_case(header_views(headers@)[i].0, "content-type"@));
    }
}

/// The credential header depends on the variant and the credential alone: whatever list it
/// is installed in, the list then holds exactly one header of that name, the last one, and
/// its name and value are those that the variant and the credential give.
pub proof fn lemma_auth_depends_on_variant_and_credential(
    entries: Seq<(Seq<char>, Seq<u8>)>,
    variant: CliType,
    credential: Seq<char>,
)
    requires
        value_ok(auth_value(variant, credential)),
    ensures
        ({
            let out = with_auth(entries, variant, credential);
            &&& out.len() > 0
            &&& out.last() == (auth_name(variant), auth_value(variant, credential))
            &&& forall|i: int|
                0 <= i < out.len() - 1 ==> !eq_ignore_case(
                    (#[trigger] out[i]).0,
                    auth_name(variant),
                )
        }),
{
    let name = auth_name(variant);
    let kept = entries.filter(not_named(name));
    let out = with_auth(entries, variant, credential);
    assert forall|i: int| 0 <= i < out.len() - 1 implies !eq_ignore_case(
        (#[trigger] out[i]).0,
        name,
    ) by {
        entries.lemma_filter_pred(not_named(name), i);
        assert(out[i] == kept[i]);
    }
}

} // verus!
