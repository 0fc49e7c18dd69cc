//! The forwarder: how a request ends, in buffered mode and in streaming mode, for each
//! way the upstream call can go.

use crate::headers::{
    check_value, find_header, first_value, header_views, text_of_value, value_ok, value_text,
    Header,
};
use crate::health::{
    after_failure, after_success, failure_blacklists, is_success_status, record_failure,
    record_success, status_is_success, success_recovers,
};
use crate::logging::{
    gunzipped, inspected_body, logged_headers, logged_text, maybe_decompress, serialize_headers,
    truncate_body, LOGGED_BODY_LIMIT,
};
use crate::models::Provider;
use crate::stats::{RequestLogInfo, RequestLogInfoView};
use crate::text::{copy_opt, opt_view, string_of, utf8_lossy};
use crate::usage::{
    parse_token_usage, read_sse_chunk, usage_after_body, usage_after_text, TokenUsage,
};
use crate::variant::CliType;
use vstd::prelude::*;
use vstd::utf8::encode_utf8;

verus! {

/// A system event to be written to the event log.
#[derive(Debug)]
pub struct SystemEvent {
    pub level: String,
    pub event_type: String,
    pub message: String,
    pub provider_name: Option<String>,
    pub details: Option<String>,
}

/// Whether `event` has exactly these texts.
pub open spec fn event_is(
    event: SystemEvent,
    level: Seq<char>,
    event_type: Seq<char>,
    message: Seq<char>,
    provider_name: Option<Seq<char>>,
    details: Option<Seq<char>>,
) -> bool {
    &&& event.level@ == level
    &&& event.event_type@ == event_type
    &&& event.message@ == message
    &&& opt_view(event.provider_name) == provider_name
    &&& opt_view(event.details) == details
}

/// Whether `event` reports that the provider `name` was blacklisted.
pub open spec fn is_blacklisted_event(
    event: SystemEvent,
    name: Seq<char>,
    details: Option<Seq<char>>,
) -> bool {
    event_is(
        event,
        "warn"@,
        "provider_blacklisted"@,
        "Provider "@ + name + " blacklisted due to consecutive failures"@,
        Some(name),
        details,
    )
}

/// Whether `event` reports that the provider `name` recovered.
pub open spec fn is_recovered_event(event: SystemEvent, name: Seq<char>) -> bool {
    event_is(
        event,
        "info"@,
        "provider_recovered"@,
        "Provider "@ + name + " recovered successfully"@,
        Some(name),
        None,
    )
}

/// Whether `event` reports that the gateway started on the address.
pub open spec fn is_started_event(event: SystemEvent, address: Seq<char>) -> bool {
    event_is(
        event,
        "info"@,
        "gateway_started"@,
        "CCG Gateway started on "@ + address,
        None,
        None,
    )
}

/// The event that reports that the gateway started on the address.
pub fn started_event(address: &str) -> (event: SystemEvent)
    ensures
        is_started_event(event, address@),
{
    SystemEvent {
        level: String::from_str("info"),
        event_type: String::from_str("gateway_started"),
        message: String::from_str("CCG Gateway started on ").concat(address),
        provider_name: None,
        details: None,
    }
}

/// The details of a blacklisting that an error caused: the error as a small JSON text.
pub open spec fn error_details(error: Seq<char>) -> Seq<char> {
    "{\"error\": \""@ + error + "\"}"@
}

/// `a`, `b` and `c` in a row.
pub fn join3(a: &str, b: &str, c: &str) -> (r: String)
    ensures
        r@ == a@ + b@ + c@,
{
    String::from_str(a).concat(b).concat(c)
}

/// What recording the outcome of a request does to the provider and which event it asks
/// for: a success clears the counter and is reported where it is a recovery; a failure
/// raises the counter and is reported where it blacklists the provider.
pub open spec fn health_settled(
    before: Provider,
    after: Provider,
    event: Option<SystemEvent>,
    success: bool,
    now: i64,
    details: Option<Seq<char>>,
) -> bool {
    if success {
        &&& after == after_success(before, now)
        &&& match event {
            Some(e) => success_recovers(before) && is_recovered_event(e, before.name@),
            None => !success_recovers(before),
        }
    } else {
        &&& after == after_failure(before, now)
        &&& match event {
            Some(e) => failure_blacklists(before) && is_blacklisted_event(
                e,
                before.name@,
                details,
            ),
            None => !failure_blacklists(before),
        }
    }
}

/// Records the outcome of a request on the provider, and says which event is to be written.
pub fn settle_health(
    provider: &mut Provider,
    success: bool,
    now: i64,
    details: Option<String>,
) -> (event: Option<SystemEvent>)
    ensures
        health_settled(*old(provider), *final(provider), event, success, now, opt_view(details)),
{
    if success {
        let name = provider.name.clone();
        if record_success(provider, now) {
            Some(
                SystemEvent {
                    level: String::from_str("info"),
                    event_type: String::from_str("provider_recovered"),
                    message: join3("Provider ", name.as_str(), " recovered successfully"),
                    provider_name: Some(name),
                    details: None,
                },
            )
        } else {
            None
        }
    } else {
        let (was_blacklisted, name) = record_failure(provider, now);
        if was_blacklisted {
            Some(
                SystemEvent {
                    level: String::from_str("warn"),
                    event_type: String::from_str("provider_blacklisted"),
                    message: join3(
                        "Provider ",
                        name.as_str(),
                        " blacklisted due to consecutive failures",
                    ),
                    provider_name: Some(name),
                    details,
                },
            )
        } else {
            None
        }
    }
}

/// What is sent back to the caller.
#[derive(Debug)]
pub struct Reply {
    pub status: u16,
    pub headers: Vec<Header>,
    pub body: Vec<u8>,
}

/// The header list with the header that names the provider added, where the name can stand
/// in a header value.
pub open spec fn with_provider_header(
    entries: Seq<(Seq<char>, Seq<u8>)>,
    provider_name: Seq<char>,
) -> Seq<(Seq<char>, Seq<u8>)> {
    if value_ok(encode_utf8(provider_name)) {
        entries.push(("X-CCG-Provider"@, encode_utf8(provider_name)))
    } else {
        entries
    }
}

/// Adds the header that names the provider.
pub fn add_provider_header(headers: &mut Vec<Header>, provider_name: &str)
    ensures
        header_views(final(headers)@) == with_provider_header(
            header_views(old(headers)@),
            provider_name@,
        ),
{
    let ghost before = header_views(headers@);
    let value = provider_name.as_bytes_vec();
    if check_value(value.as_slice()) {
        headers.push(Header { name: String::from_str("X-CCG-Provider"), value });
        assert(header_views(headers@) =~= before.push(
            ("X-CCG-Provider"@, encode_utf8(provider_name@)),
        ));
    }
}

/// The body of a reply that reports an error: a small JSON text.
pub open spec fn error_body(message: Seq<char>) -> Seq<u8> {
    encode_utf8(error_details(message))
}

/// Whether `reply` reports `message` with `status`, as JSON, and names the provider.
pub open spec fn is_error_reply(
    reply: Reply,
    status: u16,
    message: Seq<char>,
    provider_name: Seq<char>,
) -> bool {
    &&& reply.status == status
    &&& reply.body@ == error_body(message)
    &&& header_views(reply.headers@) == with_provider_header(
        seq![("content-type"@, encode_utf8("application/json"@))],
        provider_name,
    )
}

/// A reply that reports an error.
pub fn error_reply(status: u16, message: &str, provider_name: &str) -> (r: Reply)
    ensures
        is_error_reply(r, status, message@, provider_name@),
{
    let mut headers: Vec<Header> = Vec::new();
    headers.push(
        Header {
            name: String::from_str("content-type"),
            value: "application/json".as_bytes_vec(),
        },
    );
    assert(header_views(headers@) =~= seq![
        ("content-type"@, encode_utf8("application/json"@)),
    ]);
    add_provider_header(&mut headers, provider_name);
    let body = join3("{\"error\": \"", message, "\"}");
    Reply { status, headers, body: body.as_str().as_bytes_vec() }
}

/// What the handler carries through a request once a provider is selected.
#[derive(Debug)]
pub struct RequestContext {
    pub cli_type: CliType,
    pub provider_name: String,
    pub model_id: Option<String>,
    pub client_method: String,
    pub client_path: String,
}

/// One terminated request, to be logged once and counted once.
#[derive(Debug)]
pub struct RequestRecord {
    pub cli_type: CliType,
    pub provider_name: String,
    pub model_id: Option<String>,
    pub status_code: Option<u16>,
    pub elapsed_ms: i64,
    pub input_tokens: i64,
    pub output_tokens: i64,
    pub client_method: String,
    pub client_path: String,
    pub success: bool,
    pub info: RequestLogInfo,
}

/// Whether `record` is the record of the request of `ctx` with this outcome.
pub open spec fn record_is(
    record: RequestRecord,
    ctx: RequestContext,
    status_code: Option<u16>,
    elapsed_ms: i64,
    usage: TokenUsage,
    success: bool,
    info: RequestLogInfoView,
) -> bool {
    &&& record.cli_type == ctx.cli_type
    &&& record.provider_name@ == ctx.provider_name@
    &&& opt_view(record.model_id) == opt_view(ctx.model_id)
    &&& record.status_code == status_code
    &&& record.elapsed_ms == elapsed_ms
    &&& record.input_tokens == usage.input_tokens
    &&& record.output_tokens == usage.output_tokens
    &&& record.client_method@ == ctx.client_method@
    &&& record.client_path@ == ctx.client_path@
    &&& record.success == success
    &&& record.info@ == info
}

/// The record of the request of `ctx` with this outcome.
pub fn make_record(
    ctx: &RequestContext,
    status_code: Option<u16>,
    elapsed_ms: i64,
    usage: TokenUsage,
    success: bool,
    info: RequestLogInfo,
) -> (r: RequestRecord)
    ensures
        record_is(r, *ctx, status_code, elapsed_ms, usage, success, info@),
{
    RequestRecord {
        cli_type: ctx.cli_type,
        provider_name: ctx.provider_name.clone(),
        model_id: copy_opt(&ctx.model_id),
        status_code,
        elapsed_ms,
        input_tokens: usage.input_tokens,
        output_tokens: usage.output_tokens,
        client_method: ctx.client_method.clone(),
        client_path: ctx.client_path.clone(),
        success,
        info,
    }
}

/// How the upstream call of a buffered request ended.
#[derive(Debug)]
pub enum UpstreamResult {
    /// The request could not be sent or the connection failed; the text of the error.
    SendError(String),
    /// The deadline passed before the response arrived.
    Timeout,
    /// Status and headers arrived; then the body was read, or reading it failed with the
    /// text of the error.
    Response { status: u16, headers: Vec<Header>, body: Result<Vec<u8>, String> },
}

/// What a request ends with: the reply to the caller, the event to write if there is one,
/// and the record to log and count.
#[derive(Debug)]
pub struct Settled {
    pub reply: Reply,
    pub event: Option<SystemEvent>,
    pub record: RequestRecord,
}

/// The status to reply with for an upstream status: the same, or 200 where the upstream
/// status is no status code at all.
pub open spec fn reply_status(status: u16) -> u16 {
    if 100 <= status <= 999 {
        status
    } else {
        200
    }
}

/// The content encoding that response headers declare, where it is text.
pub open spec fn declared_encoding(entries: Seq<(Seq<char>, Seq<u8>)>) -> Option<Seq<char>> {
    match first_value(entries, "content-encoding"@) {
        Some(value) => value_text(value),
        None => None,
    }
}

/// The body of a response as it is inspected for logging and token counts.
pub open spec fn inspected(entries: Seq<(Seq<char>, Seq<u8>)>, body: Seq<u8>) -> Seq<u8> {
    inspected_body(body, declared_encoding(entries), gunzipped(body))
}

/// The token counts without any tokens.
pub open spec fn no_usage() -> TokenUsage {
    TokenUsage { input_tokens: 0, output_tokens: 0 }
}

/// The log details with the headers of the upstream response set.
pub open spec fn with_response_headers(
    info: RequestLogInfoView,
    entries: Seq<(Seq<char>, Seq<u8>)>,
) -> RequestLogInfoView {
    RequestLogInfoView {
        provider_headers: Some(logged_headers(entries)),
        response_headers: Some(logged_headers(entries)),
        ..info
    }
}

/// The log details with the body of the upstream response set.
pub open spec fn with_response_body(info: RequestLogInfoView, body: Seq<u8>)
    -> RequestLogInfoView {
    RequestLogInfoView {
        provider_body: Some(logged_text(utf8_lossy(body))),
        response_body: Some(logged_text(utf8_lossy(body))),
        ..info
    }
}

/// The log details with the error message set.
pub open spec fn with_error(info: RequestLogInfoView, message: Seq<char>) -> RequestLogInfoView {
    RequestLogInfoView { error_message: Some(message), ..info }
}

/// What a buffered request ends with, for each way the upstream call can end.
pub open spec fn buffered_settled(
    result: UpstreamResult,
    before: Provider,
    after: Provider,
    ctx: RequestContext,
    elapsed_ms: i64,
    now: i64,
    info: RequestLogInfoView,
    out: Settled,
) -> bool {
    match result {
        UpstreamResult::SendError(error) => {
            let message = "Upstream error: "@ + error@;
            &&& health_settled(before, after, out.event, false, now, Some(error_details(error@)))
            &&& is_error_reply(out.reply, 502, message, ctx.provider_name@)
            &&& record_is(
                out.record,
                ctx,
                None,
                elapsed_ms,
                no_usage(),
                false,
                with_error(info, message),
            )
        },
        UpstreamResult::Timeout => {
            let message = "Request timeout"@;
            &&& health_settled(before, after, out.event, false, now, Some(error_details(message)))
            &&& is_error_reply(out.reply, 504, message, ctx.provider_name@)
            &&& record_is(
                out.record,
                ctx,
                None,
                elapsed_ms,
                no_usage(),
                false,
                with_error(info, message),
            )
        },
        UpstreamResult::Response { status, headers, body: Err(error) } => {
            let entries = header_views(headers@);
            &&& health_settled(before, after, out.event, false, now, Some(error_details(error@)))
            &&& out.reply.status == 502
            &&& out.reply.body@.len() == 0
            &&& header_views(out.reply.headers@) == with_provider_header(
                Seq::empty(),
                ctx.provider_name@,
            )
            &&& record_is(
                out.record,
                ctx,
                Some(status),
                elapsed_ms,
                no_usage(),
                false,
                with_error(
                    with_response_headers(info, entries),
                    "Failed to read response body: "@ + error@,
                ),
            )
        },
        UpstreamResult::Response { status, headers, body: Ok(body) } => {
            let entries = header_views(headers@);
            let seen = inspected(entries, body@);
            let success = is_success_status(Some(status));
            &&& health_settled(before, after, out.event, success, now, info.error_message)
            &&& out.reply.status == reply_status(status)
            &&& out.reply.body@ == body@
            &&& header_views(out.reply.headers@) == with_provider_header(
                entries,
                ctx.provider_name@,
            )
            &&& record_is(
                out.record,
                ctx,
                Some(status),
                elapsed_ms,
                usage_after_body(seen, ctx.cli_type, no_usage()),
                success,
                with_response_body(with_response_headers(info, entries), seen),
            )
        },
    }
}

/// The body of a response as it is inspected for logging and token counts.
pub fn inspect_body(headers: &Vec<Header>, body: &[u8]) -> (r: Vec<u8>)
    ensures
        r@ == inspected(header_views(headers@), body@),
{
    let encoding: Option<String> = match find_header(headers, "content-encoding") {
        Some(i) => match text_of_value(headers[i].value.as_slice()) {
            Some(text) => Some(string_of(&text)),
            None => None,
        },
        None => None,
    };
    match &encoding {
        Some(e) => maybe_decompress(body, Some(e.as_str())),
        None => maybe_decompress(body, None),
    }
}

/// Ends a buffered request: records the outcome on the provider, and gives the reply, the
/// event if one is due, and the record to log and count.
pub fn handle_non_streaming_request(
    result: UpstreamResult,
    provider: &mut Provider,
    ctx: &RequestContext,
    elapsed_ms: i64,
    now: i64,
    log_info: RequestLogInfo,
) -> (out: Settled)
    ensures
        buffered_settled(
            result,
            *old(provider),
            *final(provider),
            *ctx,
            elapsed_ms,
            now,
            log_info@,
            out,
        ),
{
    let mut log_info = log_info;
    let zero = TokenUsage { input_tokens: 0, output_tokens: 0 };
    match result {
        UpstreamResult::SendError(error) => {
            let details = join3("{\"error\": \"", error.as_str(), "\"}");
            let event = settle_health(provider, false, now, Some(details));
            let message = String::from_str("Upstream error: ").concat(error.as_str());
            let reply = error_reply(502, message.as_str(), ctx.provider_name.as_str());
            log_info.error_message = Some(message);
            let record = make_record(ctx, None, elapsed_ms, zero, false, log_info);
            Settled { reply, event, record }
        },
        UpstreamResult::Timeout => {
            let details = join3("{\"error\": \"", "Request timeout", "\"}");
            let event = settle_health(provider, false, now, Some(details));
            let reply = error_reply(504, "Request timeout", ctx.provider_name.as_str());
            log_info.error_message = Some(String::from_str("Request timeout"));
            let record = make_record(ctx, None, elapsed_ms, zero, false, log_info);
            Settled { reply, event, record }
        },
        UpstreamResult::Response { status, headers, body } => {
            let logged = serialize_headers(&headers);
            log_info.provider_headers = Some(logged.clone());
            log_info.response_headers = Some(logged);
            match body {
                Err(error) => {
                    let details = join3("{\"error\": \"", error.as_str(), "\"}");
                    let event = settle_health(provider, false, now, Some(details));
                    let message = String::from_str("Failed to read response body: ").concat(
                        error.as_str(),
                    );
                    log_info.error_message = Some(message);
                    let mut reply_headers: Vec<Header> = Vec::new();
                    assert(header_views(reply_headers@) =~= Seq::empty());
                    add_provider_header(&mut reply_headers, ctx.provider_name.as_str());
                    let record = make_record(
                        ctx,
                        Some(status),
                        elapsed_ms,
                        zero,
                        false,
                        log_info,
                    );
                    Settled {
                        reply: Reply { status: 502, headers: reply_headers, body: Vec::new() },
                        event,
                        record,
                    }
                },
                Ok(bytes) => {
                    let seen = inspect_body(&headers, bytes.as_slice());
                    let text = truncate_body(seen.as_slice());
                    log_info.provider_body = Some(text.clone());
                    log_info.response_body = Some(text);
                    let mut usage = zero;
                    parse_token_usage(seen.as_slice(), ctx.cli_type, &mut usage);
                    let success = status_is_success(Some(status));
                    let details = copy_opt(&log_info.error_message);
                    let event = settle_health(provider, success, now, details);
                    let record = make_record(
                        ctx,
                        Some(status),
                        elapsed_ms,
                        usage,
                        success,
                        log_info,
                    );
                    let mut reply_headers = headers;
                    add_provider_header(&mut reply_headers, ctx.provider_name.as_str());
                    let reply_code: u16 = if 100 <= status && status <= 999 {
                        status
                    } else {
                        200
                    };
                    Settled {
                        reply: Reply { status: reply_code, headers: reply_headers, body: bytes },
                        event,
                        record,
                    }
                },
            }
        },
    }
}

/// How the wait for the head of a streamed response ended.
#[derive(Debug)]
pub enum FirstByte {
    /// The request could not be sent or the connection failed; the text of the error.
    SendError(String),
    /// The first-byte deadline passed.
    Timeout,
    /// Status and headers arrived.
    Head { status: u16, headers: Vec<Header> },
}

/// What the chunk loop of a streamed response keeps between chunks.
#[derive(Debug)]
pub struct StreamState {
    /// The token counts seen so far.
    pub usage: TokenUsage,
    /// The start of the response body, kept for logging.
    pub collected: Vec<u8>,
    /// Whether the loop has ended.
    pub finished: bool,
    /// Whether the stream broke off: an upstream error or an idle timeout.
    pub failed: bool,
    /// What went wrong, if anything did.
    pub error_message: Option<String>,
}

/// What can happen while a response is streamed.
#[derive(Debug)]
pub enum StreamEvent {
    /// The next chunk arrived.
    Chunk(Vec<u8>),
    /// The upstream ended the response.
    End,
    /// Reading from the upstream failed; the text of the error.
    Error(String),
    /// No chunk arrived within the idle deadline.
    IdleTimeout,
    /// The caller went away: writing to it failed.
    CallerGone,
}

/// What the loop does next.
#[derive(Debug)]
pub enum StreamAction {
    /// Write these bytes to the caller and wait for the next event.
    Forward(Vec<u8>),
    /// Write these bytes to the caller, then end the response.
    ForwardAndClose(Vec<u8>),
    /// End the response and drop the upstream connection.
    Close,
}

/// The frame that tells the caller of an idle timeout.
pub open spec fn idle_frame() -> Seq<u8> {
    encode_utf8("event: error\ndata: {\"error\": \"Stream idle timeout\"}\n\n"@)
}

/// The state of a stream before its first chunk.
pub open spec fn stream_fresh(state: StreamState) -> bool {
    &&& state.usage == no_usage()
    &&& state.collected@.len() == 0
    &&& !state.finished
    &&& !state.failed
    &&& state.error_message is None
}

/// What is kept of the body after one more chunk: the chunk is added while fewer than
/// 100 KiB are kept.
pub open spec fn collected_after(kept: Seq<u8>, chunk: Seq<u8>) -> Seq<u8> {
    if kept.len() < LOGGED_BODY_LIMIT {
        kept + chunk
    } else {
        kept
    }
}

/// One step of the chunk loop. A chunk goes to the caller unchanged, after its lines have
/// been read for token counts; the end, an error, an idle timeout and the caller's going
/// away each end the loop, the idle timeout after one last frame. Once the loop has ended
/// nothing changes any more.
pub open spec fn stream_stepped(
    before: StreamState,
    event: StreamEvent,
    cli: CliType,
    after: StreamState,
    action: StreamAction,
) -> bool {
    if before.finished {
        &&& action is Close
        &&& after.usage == before.usage
        &&& after.collected@ == before.collected@
        &&& after.finished
        &&& after.failed == before.failed
        &&& opt_view(after.error_message) == opt_view(before.error_message)
    } else {
        match event {
            StreamEvent::Chunk(bytes) => {
                &&& action matches StreamAction::Forward(sent)
                &&& sent@ == bytes@
                &&& after.usage == usage_after_text(utf8_lossy(bytes@), cli, before.usage)
                &&& after.collected@ == collected_after(before.collected@, bytes@)
                &&& !after.finished
                &&& after.failed == before.failed
                &&& opt_view(after.error_message) == opt_view(before.error_message)
            },
            StreamEvent::End => {
                &&& action is Close
                &&& after.usage == before.usage
                &&& after.collected@ == before.collected@
                &&& after.finished
                &&& after.failed == before.failed
                &&& opt_view(after.error_message) == opt_view(before.error_message)
            },
            StreamEvent::Error(error) => {
                &&& action is Close
                &&& after.usage == before.usage
                &&& after.collected@ == before.collected@
                &&& after.finished
                &&& after.failed
                &&& opt_view(after.error_message) == Some("Stream error: "@ + error@)
            },
            StreamEvent::IdleTimeout => {
                &&& action matches StreamAction::ForwardAndClose(sent)
                &&& sent@ == idle_frame()
                &&& after.usage == before.usage
                &&& after.collected@ == before.collected@
                &&& after.finished
                &&& after.failed
                &&& opt_view(after.error_message) == Some("Stream idle timeout"@)
            },
            StreamEvent::CallerGone => {
                &&& action is Close
                &&& after.usage == before.usage
                &&& after.collected@ == before.collected@
                &&& after.finished
                &&& after.failed == before.failed
                &&& opt_view(after.error_message) == Some("Caller disconnected"@)
            },
        }
    }
}

impl StreamState {
    /// The state of a stream before its first chunk.
    pub fn new() -> (r: StreamState)
        ensures
            stream_fresh(r),
    {
        StreamState {
            usage: TokenUsage { input_tokens: 0, output_tokens: 0 },
            collected: Vec::new(),
            finished: false,
            failed: false,
            error_message: None,
        }
    }
}

/// One step of the chunk loop of a streamed response.
pub fn stream_step(state: &mut StreamState, event: StreamEvent, cli_type: CliType) -> (action:
    StreamAction)
    ensures
        stream_stepped(*old(state), event, cli_type, *final(state), action),
{
    if state.finished {
        return StreamAction::Close;
    }
    match event {
        StreamEvent::Chunk(bytes) => {
            read_sse_chunk(bytes.as_slice(), cli_type, &mut state.usage);
            if state.collected.len() < LOGGED_BODY_LIMIT {
                let ghost kept = state.collected@;
                state.collected.extend_from_slice(bytes.as_slice());
                assert(state.collected@ =~= kept + bytes@);
            }
            StreamAction::Forward(bytes)
        },
        StreamEvent::End => {
            state.finished = true;
            StreamAction::Close
        },
        StreamEvent::Error(error) => {
            state.finished = true;
            state.failed = true;
            state.error_message = Some(String::from_str("Stream error: ").concat(error.as_str()));
            StreamAction::Close
        },
        StreamEvent::IdleTimeout => {
            state.finished = true;
            state.failed = true;
            state.error_message = Some(String::from_str("Stream idle timeout"));
            StreamAction::ForwardAndClose(
                "event: error\ndata: {\"error\": \"Stream idle timeout\"}\n\n".as_bytes_vec(),
            )
        },
        StreamEvent::CallerGone => {
            state.finished = true;
            state.error_message = Some(String::from_str("Caller disconnected"));
            StreamAction::Close
        },
    }
}

/// How a streamed request starts: it ends at once where no response head arrived, else the
/// head goes to the caller and the chunk loop begins.
#[derive(Debug)]
pub enum StreamStart {
    /// No head arrived: the request is settled.
    Failed(Settled),
    /// The head arrived: what to send to the caller at once, the state of the chunk loop,
    /// and the log details so far.
    Started { head: Reply, state: StreamState, log_info: RequestLogInfo },
}

/// How a streamed request starts, for each way the wait for the head can end.
pub open spec fn stream_started(
    first: FirstByte,
    before: Provider,
    after: Provider,
    ctx: RequestContext,
    elapsed_ms: i64,
    now: i64,
    info: RequestLogInfoView,
    out: StreamStart,
) -> bool {
    match first {
        FirstByte::SendError(error) => {
            let message = "Upstream error: "@ + error@;
            &&& out matches StreamStart::Failed(settled)
            &&& health_settled(
                before,
                after,
                settled.event,
                false,
                now,
                Some(error_details(error@)),
            )
            &&& is_error_reply(settled.reply, 502, message, ctx.provider_name@)
            &&& record_is(
                settled.record,
                ctx,
                None,
                elapsed_ms,
                no_usage(),
                false,
                with_error(info, message),
            )
        },
        FirstByte::Timeout => {
            let message = "First byte timeout"@;
            &&& out matches StreamStart::Failed(settled)
            &&& health_settled(
                before,
                after,
                settled.event,
                false,
                now,
                Some(error_details(message)),
            )
            &&& is_error_reply(settled.reply, 504, message, ctx.provider_name@)
            &&& record_is(
                settled.record,
                ctx,
                None,
                elapsed_ms,
                no_usage(),
                false,
                with_error(info, message),
            )
        },
        FirstByte::Head { status, headers } => {
            let entries = header_views(headers@);
            &&& out matches StreamStart::Started { head, state, log_info }
            &&& after == before
            &&& head.status == reply_status(status)
            &&& header_views(head.headers@) == with_provider_header(entries, ctx.provider_name@)
            &&& head.body@.len() == 0
            &&& stream_fresh(state)
            &&& log_info@ == with_response_headers(info, entries)
        },
    }
}

/// Starts a streamed request once the wait for the response head has ended.
pub fn handle_streaming_request(
    first: FirstByte,
    provider: &mut Provider,
    ctx: &RequestContext,
    elapsed_ms: i64,
    now: i64,
    log_info: RequestLogInfo,
) -> (out: StreamStart)
    ensures
        stream_started(
            first,
            *old(provider),
            *final(provider),
            *ctx,
            elapsed_ms,
            now,
            log_info@,
            out,
        ),
{
    let mut log_info = log_info;
    let zero = TokenUsage { input_tokens: 0, output_tokens: 0 };
    match first {
        FirstByte::SendError(error) => {
            let details = join3("{\"error\": \"", error.as_str(), "\"}");
            let event = settle_health(provider, false, now, Some(details));
            let message = String::from_str("Upstream error: ").concat(error.as_str());
            let reply = error_reply(502, message.as_str(), ctx.provider_name.as_str());
            log_info.error_message = Some(message);
            let record = make_record(ctx, None, elapsed_ms, zero, false, log_info);
            StreamStart::Failed(Settled { reply, event, record })
        },
        FirstByte::Timeout => {
            let details = join3("{\"error\": \"", "First byte timeout", "\"}");
            let event = settle_health(provider, false, now, Some(details));
            let reply = error_reply(504, "First byte timeout", ctx.provider_name.as_str());
            log_info.error_message = Some(String::from_str("First byte timeout"));
            let record = make_record(ctx, None, elapsed_ms, zero, false, log_info);
            StreamStart::Failed(Settled { reply, event, record })
        },
        FirstByte::Head { status, headers } => {
            let logged = serialize_headers(&headers);
            log_info.provider_headers = Some(logged.clone());
            log_info.response_headers = Some(logged);
            let mut reply_headers = headers;
            add_provider_header(&mut reply_headers, ctx.provider_name.as_str());
            let reply_code: u16 = if 100 <= status && status <= 999 {
                status
            } else {
                200
            };
            StreamStart::Started {
                head: Reply { status: reply_code, headers: reply_headers, body: Vec::new() },
                state: StreamState::new(),
                log_info,
            }
        },
    }
}

/// The token counts of a streamed response once it has ended: where the lines gave none and
/// something of the body was kept, what was kept is read as one document.
pub open spec fn final_usage(state: StreamState, seen: Seq<u8>, cli: CliType) -> TokenUsage {
    if state.usage.input_tokens == 0 && state.usage.output_tokens == 0 && state.collected@.len()
        > 0 {
        usage_after_body(seen, cli, state.usage)
    } else {
        state.usage
    }
}

/// The log details of a streamed response once it has ended.
pub open spec fn final_info(state: StreamState, seen: Seq<u8>, info: RequestLogInfoView)
    -> RequestLogInfoView {
    let with_body = with_response_body(info, seen);
    match state.error_message {
        Some(message) => with_error(with_body, message@),
        None => with_body,
    }
}

/// What a streamed request ends with: it succeeded where the upstream status is a success
/// and the stream did not break off.
pub open spec fn stream_settled(
    state: StreamState,
    status: u16,
    entries: Seq<(Seq<char>, Seq<u8>)>,
    before: Provider,
    after: Provider,
    ctx: RequestContext,
    elapsed_ms: i64,
    now: i64,
    info: RequestLogInfoView,
    event: Option<SystemEvent>,
    record: RequestRecord,
) -> bool {
    let seen = inspected(entries, state.collected@);
    let success = is_success_status(Some(status)) && !state.failed;
    let details = final_info(state, seen, info);
    &&& health_settled(before, after, event, success, now, details.error_message)
    &&& record_is(
        record,
        ctx,
        Some(status),
        elapsed_ms,
        final_usage(state, seen, ctx.cli_type),
        success,
        details,
    )
}

/// Ends a streamed request after the chunk loop: records the outcome on the provider, and
/// gives the event if one is due and the record to log and count.
pub fn finish_stream(
    state: StreamState,
    status: u16,
    headers: &Vec<Header>,
    provider: &mut Provider,
    ctx: &RequestContext,
    elapsed_ms: i64,
    now: i64,
    log_info: RequestLogInfo,
) -> (out: (Option<SystemEvent>, RequestRecord))
    ensures
        stream_settled(
            state,
            status,
            header_views(headers@),
            *old(provider),
            *final(provider),
            *ctx,
            elapsed_ms,
            now,
            log_info@,
            out.0,
            out.1,
        ),
{
    let mut log_info = log_info;
    let seen = inspect_body(headers, state.collected.as_slice());
    let mut usage = state.usage;
    if usage.input_tokens == 0 && usage.output_tokens == 0 && state.collected.len() > 0 {
        parse_token_usage(seen.as_slice(), ctx.cli_type, &mut usage);
    }
    let text = truncate_body(seen.as_slice());
    log_info.provider_body = Some(text.clone());
    log_info.response_body = Some(text);
    match &state.error_message {
        Some(message) => {
            log_info.error_message = Some(message.clone());
        },
        None => {},
    }
    let success = status_is_success(Some(status)) && !state.failed;
    let details = copy_opt(&log_info.error_message);
    let event = settle_health(provider, success, now, details);
    let record = make_record(ctx, Some(status), elapsed_ms, usage, success, log_info);
    (event, record)
}

} // verus!
