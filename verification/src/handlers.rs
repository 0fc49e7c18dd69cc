//! The entry of a request: which variant it belongs to, which provider serves it, and how
//! it goes upstream.

use crate::forwarder::{event_is, Reply, RequestContext, RequestRecord, SystemEvent};
use crate::headers::{
    ensure_content_type, filter_headers, filtered, header_views, set_auth_header, with_auth,
    with_content_type, Header,
};
use crate::health::held;
use crate::logging::{logged_headers, logged_text, serialize_headers, truncate_body};
use crate::models::{CliSettingsResponse, Provider, ProviderModelMap, TimeoutSettings};
use crate::proxy::{
    apply_body_model_mapping, apply_url_model_mapping, body_mapping, build_upstream_url,
    is_streaming, rules_of, streaming_requested, upstream_url, url_mapping, MappingView,
};
use crate::routing::{select_provider, selection_is, ProviderWithMaps};
use crate::stats::{no_details, RequestLogInfo, RequestLogInfoView};
use crate::text::{opt_str_view, opt_view, utf8_lossy};
use crate::variant::{detect_cli_type, user_agent_of, variant_of_user_agent, CliType};
use vstd::prelude::*;
use vstd::slice::slice_to_vec;
use vstd::utf8::encode_utf8;

verus! {

/// The largest request body that is taken in: 10 MiB.
pub const MAX_REQUEST_BODY: usize = 10485760;

/// The first page of a list.
pub fn default_page() -> (r: i64)
    ensures
        r == 1,
{
    1
}

/// The number of rows on a page where none is asked for.
pub fn default_page_size() -> (r: i64)
    ensures
        r == 20,
{
    20
}

/// The path of a request with its query string, if it has one.
pub open spec fn full_path_of(path: Seq<char>, query: Option<Seq<char>>) -> Seq<char> {
    match query {
        Some(q) => path + "?"@ + q,
        None => path,
    }
}

/// The path of a request with its query string.
pub fn full_path(path: &str, query: Option<&str>) -> (r: String)
    ensures
        r@ == full_path_of(path@, opt_str_view(query)),
{
    match query {
        Some(q) => String::from_str(path).concat("?").concat(q),
        None => String::from_str(path),
    }
}

/// What is to be done with a request that can be forwarded.
#[derive(Debug)]
pub struct ForwardPlan {
    /// What the handler carries on to the end of the request.
    pub ctx: RequestContext,
    /// The provider that was selected, with its mappings.
    pub provider: ProviderWithMaps,
    /// Whether the response is to be streamed.
    pub streaming: bool,
    /// The address of the upstream call.
    pub upstream_url: String,
    /// The headers of the upstream call.
    pub headers: Vec<Header>,
    /// The body of the upstream call; it is sent only where it is not empty.
    pub body: Vec<u8>,
    /// The log details so far.
    pub log_info: RequestLogInfo,
}

/// What is to be done with a request.
#[derive(Debug)]
pub enum RequestPlan {
    /// The body is larger than is taken in: reply, and nothing else.
    TooLarge(Reply),
    /// No provider can serve the request: reply, write the event, log and count the request.
    NoProvider { reply: Reply, event: SystemEvent, record: RequestRecord },
    /// Forward the request.
    Forward(ForwardPlan),
}

/// What model mapping gives for a request: Assistant-G names its model in the path and its
/// body goes on as it is; the others name it in the body.
pub open spec fn request_mapping(
    cli: CliType,
    rules: Seq<crate::proxy::MapRule>,
    body: Seq<u8>,
    path: Seq<char>,
) -> MappingView {
    match cli {
        CliType::Gemini => MappingView { body, ..url_mapping(rules, path) },
        _ => body_mapping(rules, body, path),
    }
}

/// The model identifier that is logged: the target where a rule fired, else the source.
pub open spec fn resolved_model(mapping: MappingView) -> Option<Seq<char>> {
    match mapping.target_model {
        Some(t) => Some(t),
        None => mapping.source_model,
    }
}

/// The headers of the upstream call: the caller's headers without the hop-by-hop ones, with
/// the provider's credential installed and a content type in any case.
pub open spec fn upstream_headers(
    entries: Seq<(Seq<char>, Seq<u8>)>,
    cli: CliType,
    credential: Seq<char>,
) -> Seq<(Seq<char>, Seq<u8>)> {
    with_content_type(with_auth(filtered(entries), cli, credential))
}

/// Whether `plan` forwards the request to the selected provider as the request shaper says.
pub open spec fn forward_planned(
    plan: ForwardPlan,
    method: Seq<char>,
    path: Seq<char>,
    entries: Seq<(Seq<char>, Seq<u8>)>,
    body: Seq<u8>,
) -> bool {
    let cli = variant_of_user_agent(user_agent_of(entries));
    let provider = plan.provider.provider;
    let mapping = request_mapping(cli, rules_of(plan.provider.model_maps@), body, path);
    let sent = upstream_headers(entries, cli, provider.api_key@);
    &&& plan.ctx.cli_type == cli
    &&& plan.ctx.provider_name@ == provider.name@
    &&& opt_view(plan.ctx.model_id) == resolved_model(mapping)
    &&& plan.ctx.client_method@ == method
    &&& plan.ctx.client_path@ == path
    &&& plan.streaming == streaming_requested(body, path, cli)
    &&& plan.upstream_url@ == upstream_url(provider.base_url@, mapping.path)
    &&& header_views(plan.headers@) == sent
    &&& plan.body@ == mapping.body
    &&& plan.log_info@ == RequestLogInfoView {
        client_headers: Some(logged_headers(entries)),
        client_body: Some(logged_text(utf8_lossy(body))),
        forward_url: Some(plan.upstream_url@),
        forward_headers: Some(logged_headers(sent)),
        forward_body: Some(logged_text(utf8_lossy(mapping.body))),
        ..no_details()
    }
}

/// Whether `plan` is what is to be done with the request. A body over 10 MiB is refused with
/// 400 before anything else. Else the variant is read from the user agent and a provider is
/// selected for it; where there is none the caller gets 503, the event
/// `no_provider_available` is due, and the request is logged without provider, model and
/// status.
pub open spec fn request_planned(
    plan: RequestPlan,
    method: Seq<char>,
    path: Seq<char>,
    entries: Seq<(Seq<char>, Seq<u8>)>,
    body: Seq<u8>,
    providers: Seq<Provider>,
    maps: Seq<ProviderModelMap>,
    now: i64,
    elapsed_ms: i64,
) -> bool {
    let cli = variant_of_user_agent(user_agent_of(entries));
    if body.len() > MAX_REQUEST_BODY {
        &&& plan matches RequestPlan::TooLarge(reply)
        &&& reply.status == 400
        &&& reply.headers@.len() == 0
        &&& reply.body@.len() == 0
    } else {
        match plan {
            RequestPlan::TooLarge(_) => false,
            RequestPlan::NoProvider { reply, event, record } => {
                &&& selection_is(None, providers, maps, cli.tag(), now)
                &&& reply.status == 503
                &&& header_views(reply.headers@) == seq![
                    ("content-type"@, encode_utf8("application/json"@)),
                ]
                &&& reply.body@ == encode_utf8(
                    "{\"error\": \"No available provider configured\"}"@,
                )
                &&& event_is(
                    event,
                    "warn"@,
                    "no_provider_available"@,
                    "No available provider for CLI type: "@ + cli.tag(),
                    None,
                    None,
                )
                &&& record.cli_type == cli
                &&& record.provider_name@.len() == 0
                &&& record.model_id is None
                &&& record.status_code is None
                &&& record.elapsed_ms == elapsed_ms
                &&& record.input_tokens == 0
                &&& record.output_tokens == 0
                &&& record.client_method@ == method
                &&& record.client_path@ == path
                &&& !record.success
                &&& record.info@ == RequestLogInfoView {
                    client_headers: Some(logged_headers(entries)),
                    client_body: Some(logged_text(utf8_lossy(body))),
                    ..no_details()
                }
            },
            RequestPlan::Forward(forward) => {
                &&& selection_is(Some(forward.provider), providers, maps, cli.tag(), now)
                &&& forward_planned(forward, method, path, entries, body)
            },
        }
    }
}

/// Decides what is to be done with a request: which variant it belongs to, which provider
/// serves it, and how it goes upstream. `path` is the path with the query string.
pub fn proxy_handler_catchall(
    method: &str,
    path: &str,
    headers: &Vec<Header>,
    body: &[u8],
    providers: &[Provider],
    maps: &[ProviderModelMap],
    now: i64,
    elapsed_ms: i64,
) -> (plan: RequestPlan)
    ensures
        request_planned(
            plan,
            method@,
            path@,
            header_views(headers@),
            body@,
            providers@,
            maps@,
            now,
            elapsed_ms,
        ),
{
    if body.len() > MAX_REQUEST_BODY {
        return RequestPlan::TooLarge(
            Reply { status: 400, headers: Vec::new(), body: Vec::new() },
        );
    }
    let cli_type = detect_cli_type(headers);
    let client_headers = serialize_headers(headers);
    let client_body = truncate_body(body);
    let selected = match select_provider(providers, maps, cli_type.as_str(), now) {
        Some(found) => found,
        None => {
            let mut reply_headers: Vec<Header> = Vec::new();
            reply_headers.push(
                Header {
                    name: String::from_str("content-type"),
                    value: "application/json".as_bytes_vec(),
                },
            );
            assert(header_views(reply_headers@) =~= seq![
                ("content-type"@, encode_utf8("application/json"@)),
            ]);
            let reply = Reply {
                status: 503,
                headers: reply_headers,
                body: "{\"error\": \"No available provider configured\"}".as_bytes_vec(),
            };
            let event = SystemEvent {
                level: String::from_str("warn"),
                event_type: String::from_str("no_provider_available"),
                message: String::from_str("No available provider for CLI type: ").concat(
                    cli_type.as_str(),
                ),
                provider_name: None,
                details: None,
            };
            let mut info = RequestLogInfo::default();
            info.client_headers = Some(client_headers);
            info.client_body = Some(client_body);
            let record = RequestRecord {
                cli_type,
                provider_name: String::new(),
                model_id: None,
                status_code: None,
                elapsed_ms,
                input_tokens: 0,
                output_tokens: 0,
                client_method: String::from_str(method),
                client_path: String::from_str(path),
                success: false,
                info,
            };
            return RequestPlan::NoProvider { reply, event, record };
        },
    };
    let streaming = is_streaming(body, path, cli_type);
    let mapping = match cli_type {
        CliType::Gemini => {
            let mut m = apply_url_model_mapping(&selected, path, selected.model_maps.as_slice());
            m.body = slice_to_vec(body);
            m
        },
        _ => apply_body_model_mapping(&selected, body, path),
    };
    let model_id = mapping.model_id();
    let url = build_upstream_url(
        selected.provider.base_url.as_str(),
        mapping.path.as_str(),
        cli_type,
    );
    let mut req_headers = filter_headers(headers);
    set_auth_header(&mut req_headers, selected.provider.api_key.as_str(), cli_type);
    ensure_content_type(&mut req_headers);
    let mut log_info = RequestLogInfo::default();
    log_info.client_headers = Some(client_headers);
    log_info.client_body = Some(client_body);
    log_info.forward_url = Some(url.clone());
    log_info.forward_headers = Some(serialize_headers(&req_headers));
    log_info.forward_body = Some(truncate_body(mapping.body.as_slice()));
    let ctx = RequestContext {
        cli_type,
        provider_name: selected.provider.name.clone(),
        model_id,
        client_method: String::from_str(method),
        client_path: String::from_str(path),
    };
    RequestPlan::Forward(
        ForwardPlan {
            ctx,
            provider: selected,
            streaming,
            upstream_url: url,
            headers: req_headers,
            body: mapping.body,
            log_info,
        },
    )
}

/// Which page of a list is asked for.
#[derive(Debug)]
pub struct PaginatedQuery {
    pub page: i64,
    pub page_size: i64,
}

/// Which providers are asked for: those of one variant, or all.
#[derive(Debug)]
pub struct ProviderQuery {
    pub cli_type: Option<String>,
}

/// The body of a reply that reports an error to the operator.
#[derive(Debug)]
pub struct ErrorResponse {
    pub error: String,
}

/// A change of the gateway settings.
#[derive(Debug)]
pub struct GatewaySettingsUpdate {
    pub debug_log: bool,
}

/// The gateway settings as they are shown.
#[derive(Debug)]
pub struct GatewaySettingsResponse {
    pub debug_log: bool,
}

/// Which request log rows are asked for.
#[derive(Debug)]
pub struct LogQuery {
    pub page: i64,
    pub page_size: i64,
    pub cli_type: Option<String>,
}

/// Which system event rows are asked for.
#[derive(Debug)]
pub struct SystemLogQuery {
    pub page: i64,
    pub page_size: i64,
    pub level: Option<String>,
    pub event_type: Option<String>,
    pub provider_name: Option<String>,
}

/// Which usage rows are asked for.
#[derive(Debug)]
pub struct StatsQuery {
    pub start_date: Option<String>,
    pub end_date: Option<String>,
    pub cli_type: Option<String>,
}

/// All settings at once; the settings of the assistants stand in the order of the variants.
#[derive(Debug)]
pub struct AllSettingsResponse {
    pub gateway: GatewaySettingsResponse,
    pub timeouts: TimeoutSettings,
    pub cli_settings: Vec<CliSettingsResponse>,
}

/// The rows of a list that one page shows.
#[derive(Debug, Clone, Copy, PartialEq, Eq, Structural)]
pub struct PageWindow {
    /// The page, the first being 1.
    pub page: i64,
    /// The number of rows on a page.
    pub page_size: i64,
    /// The number of rows that stand before the page.
    pub offset: i64,
}

/// The window of a page: the page is at least 1, a page has 1 to 100 rows, and the pages
/// before it are skipped.
pub open spec fn window_of(page: i64, page_size: i64) -> PageWindow {
    let p = if page < 1 {
        1
    } else {
        page
    };
    let n = if page_size < 1 {
        1
    } else if page_size > 100 {
        100
    } else {
        page_size
    };
    PageWindow { page: p, page_size: n, offset: held((p - 1) * n) }
}

/// The window of the page that is asked for.
pub fn page_window(page: i64, page_size: i64) -> (r: PageWindow)
    ensures
        r == window_of(page, page_size),
{
    let p: i64 = if page < 1 {
        1
    } else {
        page
    };
    let n: i64 = if page_size < 1 {
        1
    } else if page_size > 100 {
        100
    } else {
        page_size
    };
    assert(0 <= (p - 1) * n <= 100 * 0x7fff_ffff_ffff_ffff) by (nonlinear_arith)
        requires
            1 <= p <= 0x7fff_ffff_ffff_ffff,
            1 <= n <= 100,
    ;
    let wide: i128 = (p as i128 - 1) * (n as i128);
    let offset: i64 = if wide > i64::MAX as i128 {
        i64::MAX
    } else {
        wide as i64
    };
    PageWindow { page: p, page_size: n, offset }
}

} // verus!
