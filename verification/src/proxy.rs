//! The request shaper: streaming decision, model mapping, upstream address, timeouts.

use crate::json::{
    bool_of, json_parsed, json_rendered, json_tree, member, parse_document, render_document,
    set_text_member, text_of, JsonTree,
};
use crate::models::ProviderModelMap;
use crate::routing::ProviderWithMaps;
use crate::text::{
    chars_of, concat_chars, opt_view, contains_chars, contains_seq, occurs_at, occurs_at_index,
    replace_all, replaced, string_of, string_of_range, trailing_bound, without_trailing,
};
use crate::variant::CliType;
use crate::wildcard::{wildcard_match, wildcard_matches};
use serde_json::Value;
use vstd::prelude::*;
use vstd::slice::slice_to_vec;

verus! {

/// Whether a parsed request body asks for a streamed response: its member `stream` is `true`.
pub open spec fn stream_flag(t: JsonTree) -> bool {
    match t.member("stream"@) {
        Some(v) => v.as_bool() == Some(true),
        None => false,
    }
}

/// Whether a request asks for a streamed response. Assistant-G says so in the path; the
/// others in the body, and a body that is no JSON document asks for none.
pub open spec fn streaming_requested(body: Seq<u8>, path: Seq<char>, cli: CliType) -> bool {
    match cli {
        CliType::Gemini => contains_seq(path, "streamGenerateContent"@),
        _ => match json_parsed(body) {
            Some(t) => stream_flag(t),
            None => false,
        },
    }
}

/// Whether a parsed request body asks for a streamed response.
pub fn body_asks_stream(doc: &Value) -> (r: bool)
    ensures
        r == stream_flag(json_tree(*doc)),
{
    match member(doc, "stream") {
        Some(v) => match bool_of(v) {
            Some(b) => b,
            None => false,
        },
        None => false,
    }
}

/// Whether a request asks for a streamed response.
pub fn is_streaming(body: &[u8], path: &str, cli_type: CliType) -> (r: bool)
    ensures
        r == streaming_requested(body@, path@, cli_type),
{
    match cli_type {
        CliType::Gemini => {
            let p = chars_of(path);
            let needle = chars_of("streamGenerateContent");
            contains_chars(&p, &needle)
        },
        _ => match parse_document(body) {
            Some(doc) => body_asks_stream(&doc),
            None => false,
        },
    }
}

/// A mapping rule as contracts see it.
pub struct MapRule {
    pub source: Seq<char>,
    pub target: Seq<char>,
    pub enabled: bool,
}

impl View for ProviderModelMap {
    type V = MapRule;

    open spec fn view(&self) -> MapRule {
        MapRule {
            source: self.source_model@,
            target: self.target_model@,
            enabled: self.enabled != 0,
        }
    }
}

/// The rules of a list, in order.
pub open spec fn rules_of(maps: Seq<ProviderModelMap>) -> Seq<MapRule> {
    Seq::new(maps.len(), |i: int| maps[i]@)
}

/// The target of the first enabled rule whose pattern matches `model`.
pub open spec fn first_target(rules: Seq<MapRule>, model: Seq<char>) -> Option<Seq<char>>
    decreases rules.len(),
{
    if rules.len() == 0 {
        None
    } else if rules[0].enabled && wildcard_matches(rules[0].source, model) {
        Some(rules[0].target)
    } else {
        first_target(rules.skip(1), model)
    }
}

/// The index of the first enabled rule whose pattern matches `model`.
pub fn find_rule(maps: &[ProviderModelMap], model: &str) -> (r: Option<usize>)
    ensures
        match r {
            Some(i) => i < maps.len() && first_target(rules_of(maps@), model@) == Some(
                maps@[i as int].target_model@,
            ),
            None => first_target(rules_of(maps@), model@) is None,
        },
{
    let ghost all = rules_of(maps@);
    let mut i: usize = 0;
    assert(all.skip(0) =~= all);
    while i < maps.len()
        invariant
            i <= maps.len(),
            all == rules_of(maps@),
            first_target(all, model@) == first_target(all.skip(i as int), model@),
        decreases maps.len() - i,
    {
        assert(all.skip(i as int)[0] == all[i as int]);
        assert(all.skip(i as int).skip(1) =~= all.skip(i + 1));
        if maps[i].enabled != 0 && wildcard_match(maps[i].source_model.as_str(), model) {
            return Some(i);
        }
        i += 1;
    }
    None
}

/// What model mapping gives back.
#[derive(Debug)]
pub struct ModelMappingResult {
    pub body: Vec<u8>,
    pub path: String,
    pub source_model: Option<String>,
    pub target_model: Option<String>,
}

/// A mapping result as contracts see it.
pub struct MappingView {
    pub body: Seq<u8>,
    pub path: Seq<char>,
    pub source_model: Option<Seq<char>>,
    pub target_model: Option<Seq<char>>,
}

impl View for ModelMappingResult {
    type V = MappingView;

    open spec fn view(&self) -> MappingView {
        MappingView {
            body: self.body@,
            path: self.path@,
            source_model: opt_view(self.source_model),
            target_model: opt_view(self.target_model),
        }
    }
}

impl ModelMappingResult {
    /// The model identifier to log: the target where a rule fired, else the source.
    pub open spec fn resolved(self) -> Option<Seq<char>> {
        match self@.target_model {
            Some(t) => Some(t),
            None => self@.source_model,
        }
    }

    /// The model identifier to log: the target where a rule fired, else the source.
    pub fn model_id(&self) -> (r: Option<String>)
        ensures
            opt_view(r) == self.resolved(),
    {
        match &self.target_model {
            Some(t) => Some(t.clone()),
            None => match &self.source_model {
                Some(s) => Some(s.clone()),
                None => None,
            },
        }
    }
}

/// The model identifier of a parsed request body: the text under `model`.
pub open spec fn body_model(t: JsonTree) -> Option<Seq<char>> {
    match t.member("model"@) {
        Some(v) => v.as_text(),
        None => None,
    }
}

/// Model mapping on a parsed body. The source model is the text under `model`. Where an
/// enabled rule matches it, the first such rule gives the target, and the body becomes the
/// document with the target under `model`, written out again; the path is never changed.
pub open spec fn body_mapping_of(
    t: JsonTree,
    rules: Seq<MapRule>,
    body: Seq<u8>,
    path: Seq<char>,
) -> MappingView {
    match body_model(t) {
        None => MappingView { body, path, source_model: None, target_model: None },
        Some(model) => match first_target(rules, model) {
            None => MappingView { body, path, source_model: Some(model), target_model: None },
            Some(target) => MappingView {
                body: match json_rendered(t.with_member("model"@, JsonTree::Text(target))) {
                    Some(bytes) => bytes,
                    None => body,
                },
                path,
                source_model: Some(model),
                target_model: Some(target),
            },
        },
    }
}

/// Model mapping on a request body: a body that is no JSON document is left as it is.
pub open spec fn body_mapping(rules: Seq<MapRule>, body: Seq<u8>, path: Seq<char>)
    -> MappingView {
    match json_parsed(body) {
        Some(t) => body_mapping_of(t, rules, body, path),
        None => MappingView { body, path, source_model: None, target_model: None },
    }
}

/// Applies the rules to a request body that has been parsed into `doc`.
pub fn map_parsed_body(
    doc: Value,
    maps: &Vec<ProviderModelMap>,
    body: &[u8],
    path: &str,
) -> (r: ModelMappingResult)
    ensures
        r@ == body_mapping_of(json_tree(doc), rules_of(maps@), body@, path@),
{
    let mut doc = doc;
    let mut result = ModelMappingResult {
        body: slice_to_vec(body),
        path: String::from_str(path),
        source_model: None,
        target_model: None,
    };
    let model: String = match member(&doc, "model") {
        Some(v) => match text_of(v) {
            Some(s) => String::from_str(s),
            None => {
                return result;
            },
        },
        None => {
            return result;
        },
    };
    match find_rule(maps.as_slice(), model.as_str()) {
        Some(i) => {
            let target = maps[i].target_model.clone();
            set_text_member(&mut doc, "model", target.as_str());
            match render_document(&doc) {
                Some(bytes) => {
                    result.body = bytes;
                },
                None => {},
            }
            result.target_model = Some(target);
        },
        None => {},
    }
    result.source_model = Some(model);
    result
}

/// Applies the provider's model mappings to a request whose model stands in the body.
pub fn apply_body_model_mapping(provider: &ProviderWithMaps, body: &[u8], path: &str) -> (r:
    ModelMappingResult)
    ensures
        r@ == body_mapping(rules_of(provider.model_maps@), body@, path@),
{
    match parse_document(body) {
        Some(doc) => map_parsed_body(doc, &provider.model_maps, body, path),
        None => ModelMappingResult {
            body: slice_to_vec(body),
            path: String::from_str(path),
            source_model: None,
            target_model: None,
        },
    }
}

/// Whether `c` may stand in a model identifier inside a path.
pub open spec fn token_char(c: char) -> bool {
    c != '/' && c != ':'
}

/// The length of the run of identifier characters at the start of `s`.
pub open spec fn token_run(s: Seq<char>) -> int
    decreases s.len(),
{
    if s.len() > 0 && token_char(s[0]) {
        1 + token_run(s.skip(1))
    } else {
        0
    }
}

/// Whether a model identifier is named at index `i` of `path`: `/models/` stands there and
/// an identifier character follows it.
pub open spec fn model_named_at(path: Seq<char>, i: int) -> bool {
    let marker = "/models/"@;
    occurs_at(path, i, marker) && i + marker.len() < path.len() && token_char(
        path[i + marker.len()],
    )
}

/// The first index at or after `from` where a model identifier is named.
pub open spec fn first_model_index(path: Seq<char>, from: int) -> Option<int>
    decreases path.len() - from,
{
    if from < 0 || from >= path.len() {
        None
    } else if model_named_at(path, from) {
        Some(from)
    } else {
        first_model_index(path, from + 1)
    }
}

/// The model identifier of a path: the run of characters other than `/` and `:` that
/// follows the first `/models/` which has such a character after it.
pub open spec fn path_model(path: Seq<char>) -> Option<Seq<char>> {
    match first_model_index(path, 0) {
        Some(i) => {
            let start = i + "/models/"@.len();
            Some(path.subrange(start, start + token_run(path.skip(start))))
        },
        None => None,
    }
}

/// Model mapping on a path. Where an enabled rule matches the path's model identifier, the
/// first such rule gives the target, and `/models/<source>` becomes `/models/<target>`
/// wherever it stands in the path. The body is not looked at and comes back empty.
pub open spec fn url_mapping(rules: Seq<MapRule>, path: Seq<char>) -> MappingView {
    match path_model(path) {
        None => MappingView {
            body: Seq::empty(),
            path,
            source_model: None,
            target_model: None,
        },
        Some(model) => match first_target(rules, model) {
            None => MappingView {
                body: Seq::empty(),
                path,
                source_model: Some(model),
                target_model: None,
            },
            Some(target) => MappingView {
                body: Seq::empty(),
                path: replaced(path, "/models/"@ + model, "/models/"@ + target),
                source_model: Some(model),
                target_model: Some(target),
            },
        },
    }
}

/// The bounds of the model identifier in `path`.
pub fn find_path_model(path: &Vec<char>) -> (r: Option<(usize, usize)>)
    ensures
        match r {
            Some((a, b)) => a <= b <= path.len() && path_model(path@) == Some(
                path@.subrange(a as int, b as int),
            ),
            None => path_model(path@) is None,
        },
{
    proof {
        reveal_strlit("/models/");
    }
    let marker = chars_of("/models/");
    let len: usize = path.len();
    let mut i: usize = 0;
    while i < len
        invariant
            len == path.len(),
            i <= len,
            marker@ == "/models/"@,
            marker@.len() == 8,
            first_model_index(path@, 0) == first_model_index(path@, i as int),
        decreases len - i,
    {
        if occurs_at_index(path, i, &marker) && len - i > 8 && path[i + 8] != '/' && path[i + 8]
            != ':' {
            let start: usize = i + 8;
            let mut j: usize = start;
            assert(path@.skip(start as int).skip(0) =~= path@.skip(start as int));
            while j < len && path[j] != '/' && path[j] != ':'
                invariant
                    len == path.len(),
                    start <= j <= len,
                    token_run(path@.skip(start as int)) == (j - start) + token_run(
                        path@.skip(j as int),
                    ),
                decreases len - j,
            {
                assert(path@.skip(j as int).skip(1) =~= path@.skip(j + 1));
                j += 1;
            }
            return Some((start, j));
        }
        i += 1;
    }
    None
}

/// Applies the rules to a request whose model stands in the path.
pub fn apply_url_model_mapping(
    _provider: &ProviderWithMaps,
    path: &str,
    model_maps: &[ProviderModelMap],
) -> (r: ModelMappingResult)
    ensures
        r@ == url_mapping(rules_of(model_maps@), path@),
{
    let mut result = ModelMappingResult {
        body: Vec::new(),
        path: String::from_str(path),
        source_model: None,
        target_model: None,
    };
    let chars = chars_of(path);
    let (a, b) = match find_path_model(&chars) {
        Some(bounds) => bounds,
        None => {
            return result;
        },
    };
    let source = string_of_range(&chars, a, b);
    match find_rule(model_maps, source.as_str()) {
        Some(i) => {
            let target = model_maps[i].target_model.clone();
            let marker = chars_of("/models/");
            let from = concat_chars(&marker, &chars_of(source.as_str()));
            let to = concat_chars(&marker, &chars_of(target.as_str()));
            result.path = string_of(&replace_all(&chars, &from, &to));
            result.target_model = Some(target);
        },
        None => {},
    }
    result.source_model = Some(source);
    result
}

/// The address of the upstream call: the provider's base address without the slashes at its
/// end, followed by the request path and query.
pub open spec fn upstream_url(base_url: Seq<char>, path: Seq<char>) -> Seq<char> {
    without_trailing(base_url, '/') + path
}

/// The address of the upstream call.
pub fn build_upstream_url(base_url: &str, path: &str, cli_type: CliType) -> (r: String)
    ensures
        r@ == upstream_url(base_url@, path@),
{
    let base = chars_of(base_url);
    let end = trailing_bound(&base, '/');
    let trimmed = string_of_range(&base, 0, end);
    trimmed.concat(path)
}

/// With no rule at all, mapping changes neither body nor path.
pub proof fn lemma_no_rules_no_change(body: Seq<u8>, path: Seq<char>)
    ensures
        body_mapping(Seq::empty(), body, path).body == body,
        body_mapping(Seq::empty(), body, path).path == path,
        body_mapping(Seq::empty(), body, path).target_model is None,
        url_mapping(Seq::empty(), path).path == path,
        url_mapping(Seq::empty(), path).target_model is None,
{
}

/// With the single enabled rule `a -> b`, a body whose model matches `a` comes out as the
/// document that holds `b` under `model`, and `b` is reported as the target.
pub proof fn lemma_single_rule_maps_model(
    a: Seq<char>,
    b: Seq<char>,
    t: JsonTree,
    model: Seq<char>,
    body: Seq<u8>,
    path: Seq<char>,
)
    requires
        json_parsed(body) == Some(t),
        body_model(t) == Some(model),
        wildcard_matches(a, model),
    ensures
        ({
            let rules = seq![MapRule { source: a, target: b, enabled: true }];
            let out = body_mapping(rules, body, path);
            let mapped = t.with_member("model"@, JsonTree::Text(b));
            &&& out.target_model == Some(b)
            &&& out.source_model == Some(model)
            &&& out.path == path
            &&& body_model(mapped) == Some(b)
            &&& json_rendered(mapped) matches Some(bytes) ==> out.body == bytes
        }),
{
}

/// The three timeouts, in whole seconds.
#[derive(Debug, Clone, Copy, PartialEq, Eq, Structural)]
pub struct TimeoutConfig {
    /// How long to wait for the head of a streamed response.
    pub first_byte_timeout: u64,
    /// How long to wait for the next chunk of a streamed response.
    pub idle_timeout: u64,
    /// How long a buffered request may take in all.
    pub non_stream_timeout: u64,
}

/// A stored number of seconds as a length of time: a negative number counts from the top of
/// the range of `u64`.
pub open spec fn seconds_of(stored: i64) -> u64 {
    if stored >= 0 {
        stored as u64
    } else {
        (stored + 0x1_0000_0000_0000_0000) as u64
    }
}

fn seconds(stored: i64) -> (r: u64)
    ensures
        r == seconds_of(stored),
{
    if stored >= 0 {
        stored as u64
    } else {
        u64::MAX - ((-(stored + 1)) as u64)
    }
}

impl Default for TimeoutConfig {
    fn default() -> (r: Self)
        ensures
            r == (TimeoutConfig {
                first_byte_timeout: 60,
                idle_timeout: 30,
                non_stream_timeout: 120,
            }),
    {
        TimeoutConfig { first_byte_timeout: 60, idle_timeout: 30, non_stream_timeout: 120 }
    }
}

impl TimeoutConfig {
    /// The timeouts as the settings row holds them.
    pub fn from_db(
        stream_first_byte_timeout: i64,
        stream_idle_timeout: i64,
        non_stream_timeout: i64,
    ) -> (r: Self)
        ensures
            r == (TimeoutConfig {
                first_byte_timeout: seconds_of(stream_first_byte_timeout),
                idle_timeout: seconds_of(stream_idle_timeout),
                non_stream_timeout: seconds_of(non_stream_timeout),
            }),
    {
        TimeoutConfig {
            first_byte_timeout: seconds(stream_first_byte_timeout),
            idle_timeout: seconds(stream_idle_timeout),
            non_stream_timeout: seconds(non_stream_timeout),
        }
    }

    /// The deadline, in seconds, of the first wait of a request: for the head of a streamed
    /// response, or for the whole of a buffered one.
    pub fn first_deadline(&self, streaming: bool) -> (r: u64)
        ensures
            r == if streaming {
                self.first_byte_timeout
            } else {
                self.non_stream_timeout
            },
    {
        if streaming {
            self.first_byte_timeout
        } else {
            self.non_stream_timeout
        }
    }
}

} // verus!
