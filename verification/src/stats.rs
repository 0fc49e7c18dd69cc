//! The telemetry recorder: the request log, the system event log and the daily usage.

use crate::forwarder::{RequestRecord, SystemEvent};
use crate::health::{held, hold};
use crate::json::{json_text, json_tree, render_text};
use crate::models::{RequestLogDetail, SystemLog, UsageDaily};
use crate::text::{opt_str_view, opt_view, own_opt};
use serde_json::Value;
use vstd::prelude::*;

verus! {

/// The copies of headers and bodies, and the error, that go with a request log row.
#[derive(Debug, Clone)]
pub struct RequestLogInfo {
    pub client_headers: Option<String>,
    pub client_body: Option<String>,
    pub forward_url: Option<String>,
    pub forward_headers: Option<String>,
    pub forward_body: Option<String>,
    pub provider_headers: Option<String>,
    pub provider_body: Option<String>,
    pub response_headers: Option<String>,
    pub response_body: Option<String>,
    pub error_message: Option<String>,
}

/// Log details as contracts see them.
pub struct RequestLogInfoView {
    pub client_headers: Option<Seq<char>>,
    pub client_body: Option<Seq<char>>,
    pub forward_url: Option<Seq<char>>,
    pub forward_headers: Option<Seq<char>>,
    pub forward_body: Option<Seq<char>>,
    pub provider_headers: Option<Seq<char>>,
    pub provider_body: Option<Seq<char>>,
    pub response_headers: Option<Seq<char>>,
    pub response_body: Option<Seq<char>>,
    pub error_message: Option<Seq<char>>,
}

impl View for RequestLogInfo {
    type V = RequestLogInfoView;

    open spec fn view(&self) -> RequestLogInfoView {
        RequestLogInfoView {
            client_headers: opt_view(self.client_headers),
            client_body: opt_view(self.client_body),
            forward_url: opt_view(self.forward_url),
            forward_headers: opt_view(self.forward_headers),
            forward_body: opt_view(self.forward_body),
            provider_headers: opt_view(self.provider_headers),
            provider_body: opt_view(self.provider_body),
            response_headers: opt_view(self.response_headers),
            response_body: opt_view(self.response_body),
            error_message: opt_view(self.error_message),
        }
    }
}

/// Log details in which nothing is set.
pub open spec fn no_details() -> RequestLogInfoView {
    RequestLogInfoView {
        client_headers: None,
        client_body: None,
        forward_url: None,
        forward_headers: None,
        forward_body: None,
        provider_headers: None,
        provider_body: None,
        response_headers: None,
        response_body: None,
        error_message: None,
    }
}

impl Default for RequestLogInfo {
    fn default() -> (r: Self)
        ensures
            r@ == no_details(),
    {
        RequestLogInfo {
            client_headers: None,
            client_body: None,
            forward_url: None,
            forward_headers: None,
            forward_body: None,
            provider_headers: None,
            provider_body: None,
            response_headers: None,
            response_body: None,
            error_message: None,
        }
    }
}

/// A daily usage row as contracts see it.
pub struct UsageDailyView {
    pub usage_date: Seq<char>,
    pub provider_name: Seq<char>,
    pub cli_type: Seq<char>,
    pub request_count: i64,
    pub success_count: i64,
    pub failure_count: i64,
    pub input_tokens: i64,
    pub output_tokens: i64,
}

impl View for UsageDaily {
    type V = UsageDailyView;

    open spec fn view(&self) -> UsageDailyView {
        UsageDailyView {
            usage_date: self.usage_date@,
            provider_name: self.provider_name@,
            cli_type: self.cli_type@,
            request_count: self.request_count,
            success_count: self.success_count,
            failure_count: self.failure_count,
            input_tokens: self.input_tokens,
            output_tokens: self.output_tokens,
        }
    }
}

/// The rows of the daily usage table, in order.
pub open spec fn usage_views(rows: Seq<UsageDaily>) -> Seq<UsageDailyView> {
    Seq::new(rows.len(), |i: int| rows[i]@)
}

/// One request as the daily counters see it.
pub struct UsageIncrement {
    pub usage_date: Seq<char>,
    pub provider_name: Seq<char>,
    pub cli_type: Seq<char>,
    pub success: bool,
    pub input_tokens: i64,
    pub output_tokens: i64,
}

/// 1 for `true` and 0 for `false`.
pub open spec fn flag(b: bool) -> i64 {
    if b {
        1
    } else {
        0
    }
}

/// Whether `row` counts the given day, provider and variant.
pub open spec fn same_key(
    row: UsageDailyView,
    date: Seq<char>,
    provider: Seq<char>,
    cli: Seq<char>,
) -> bool {
    row.usage_date == date && row.provider_name == provider && row.cli_type == cli
}

/// The row that counts one request and nothing else.
pub open spec fn first_count(inc: UsageIncrement) -> UsageDailyView {
    UsageDailyView {
        usage_date: inc.usage_date,
        provider_name: inc.provider_name,
        cli_type: inc.cli_type,
        request_count: 1,
        success_count: flag(inc.success),
        failure_count: flag(!inc.success),
        input_tokens: inc.input_tokens,
        output_tokens: inc.output_tokens,
    }
}

/// `row` with one more request counted: every counter grows by what the request adds, held
/// at the ends of the range of `i64`.
pub open spec fn counted(row: UsageDailyView, inc: UsageIncrement) -> UsageDailyView {
    UsageDailyView {
        request_count: held(row.request_count + 1),
        success_count: held(row.success_count + flag(inc.success)),
        failure_count: held(row.failure_count + flag(!inc.success)),
        input_tokens: held(row.input_tokens + inc.input_tokens),
        output_tokens: held(row.output_tokens + inc.output_tokens),
        ..row
    }
}

/// The index of the first row that counts the given day, provider and variant.
pub open spec fn key_index(
    rows: Seq<UsageDailyView>,
    date: Seq<char>,
    provider: Seq<char>,
    cli: Seq<char>,
) -> Option<int>
    decreases rows.len(),
{
    if rows.len() == 0 {
        None
    } else {
        match key_index(rows.drop_last(), date, provider, cli) {
            Some(i) => Some(i),
            None => if same_key(rows.last(), date, provider, cli) {
                Some(rows.len() - 1)
            } else {
                None
            },
        }
    }
}

/// The daily usage table after one request has been counted: the row of its day, provider
/// and variant counts it, and is added where there was none.
pub open spec fn usage_counted(rows: Seq<UsageDailyView>, inc: UsageIncrement) -> Seq<
    UsageDailyView,
> {
    match key_index(rows, inc.usage_date, inc.provider_name, inc.cli_type) {
        Some(i) => rows.update(i, counted(rows[i], inc)),
        None => rows.push(first_count(inc)),
    }
}

fn find_usage_row(rows: &Vec<UsageDaily>, today: &str, provider_name: &str, cli_type: &str) -> (r:
    Option<usize>)
    ensures
        match r {
            Some(i) => i < rows.len() && key_index(
                usage_views(rows@),
                today@,
                provider_name@,
                cli_type@,
            ) == Some(i as int),
            None => key_index(usage_views(rows@), today@, provider_name@, cli_type@) is None,
        },
{
    let date = String::from_str(today);
    let provider = String::from_str(provider_name);
    let cli = String::from_str(cli_type);
    let mut i: usize = 0;
    assert(usage_views(rows@).take(0) =~= Seq::empty());
    while i < rows.len()
        invariant
            i <= rows.len(),
            date@ == today@,
            provider@ == provider_name@,
            cli@ == cli_type@,
            key_index(usage_views(rows@).take(i as int), today@, provider_name@, cli_type@)
                is None,
        decreases rows.len() - i,
    {
        let ghost longer = usage_views(rows@).take(i + 1);
        proof {
            assert(longer.drop_last() =~= usage_views(rows@).take(i as int));
            assert(longer.last() == rows@[i as int]@);
        }
        if rows[i].usage_date == date && rows[i].provider_name == provider && rows[i].cli_type
            == cli {
            proof {
                assert(key_index(longer, today@, provider_name@, cli_type@) == Some(i as int));
                lemma_key_index_extends(
                    usage_views(rows@),
                    today@,
                    provider_name@,
                    cli_type@,
                    i + 1,
                );
            }
            return Some(i);
        }
        i += 1;
    }
    assert(usage_views(rows@).take(rows.len() as int) =~= usage_views(rows@));
    None
}

proof fn lemma_key_index_extends(
    rows: Seq<UsageDailyView>,
    date: Seq<char>,
    provider: Seq<char>,
    cli: Seq<char>,
    n: int,
)
    requires
        0 <= n <= rows.len(),
        key_index(rows.take(n), date, provider, cli) is Some,
    ensures
        key_index(rows, date, provider, cli) == key_index(rows.take(n), date, provider, cli),
    decreases rows.len() - n,
{
    if n < rows.len() {
        assert(rows.take(n + 1).drop_last() =~= rows.take(n));
        lemma_key_index_extends(rows, date, provider, cli, n + 1);
    } else {
        assert(rows.take(n) =~= rows);
    }
}

/// Counts one request in the daily usage table.
pub fn record_request(
    usage: &mut Vec<UsageDaily>,
    today: &str,
    provider_name: &str,
    cli_type: &str,
    success: bool,
    input_tokens: i64,
    output_tokens: i64,
)
    ensures
        usage_views(final(usage)@) == usage_counted(
            usage_views(old(usage)@),
            UsageIncrement {
                usage_date: today@,
                provider_name: provider_name@,
                cli_type: cli_type@,
                success,
                input_tokens,
                output_tokens,
            },
        ),
{
    let ghost before = usage_views(usage@);
    let ghost inc = UsageIncrement {
        usage_date: today@,
        provider_name: provider_name@,
        cli_type: cli_type@,
        success,
        input_tokens,
        output_tokens,
    };
    let found = find_usage_row(usage, today, provider_name, cli_type);
    let ok: i64 = if success {
        1
    } else {
        0
    };
    let bad: i64 = if success {
        0
    } else {
        1
    };
    match found {
        Some(i) => {
            let row = &usage[i];
            let next = UsageDaily {
                usage_date: row.usage_date.clone(),
                provider_name: row.provider_name.clone(),
                cli_type: row.cli_type.clone(),
                request_count: hold(row.request_count as i128 + 1),
                success_count: hold(row.success_count as i128 + ok as i128),
                failure_count: hold(row.failure_count as i128 + bad as i128),
                input_tokens: hold(row.input_tokens as i128 + input_tokens as i128),
                output_tokens: hold(row.output_tokens as i128 + output_tokens as i128),
            };
            usage.set(i, next);
            assert(usage_views(usage@) =~= before.update(i as int, counted(before[i as int], inc)));
        },
        None => {
            usage.push(
                UsageDaily {
                    usage_date: String::from_str(today),
                    provider_name: String::from_str(provider_name),
                    cli_type: String::from_str(cli_type),
                    request_count: 1,
                    success_count: ok,
                    failure_count: bad,
                    input_tokens,
                    output_tokens,
                },
            );
            assert(usage_views(usage@) =~= before.push(first_count(inc)));
        },
    }
}

/// A request log row as contracts see it.
pub struct RequestLogView {
    pub id: i64,
    pub created_at: i64,
    pub cli_type: Seq<char>,
    pub provider_name: Seq<char>,
    pub model_id: Option<Seq<char>>,
    pub status_code: Option<i64>,
    pub elapsed_ms: i64,
    pub input_tokens: i64,
    pub output_tokens: i64,
    pub client_method: Seq<char>,
    pub client_path: Seq<char>,
    pub info: RequestLogInfoView,
}

impl View for RequestLogDetail {
    type V = RequestLogView;

    open spec fn view(&self) -> RequestLogView {
        RequestLogView {
            id: self.id,
            created_at: self.created_at,
            cli_type: self.cli_type@,
            provider_name: self.provider_name@,
            model_id: opt_view(self.model_id),
            status_code: self.status_code,
            elapsed_ms: self.elapsed_ms,
            input_tokens: self.input_tokens,
            output_tokens: self.output_tokens,
            client_method: self.client_method@,
            client_path: self.client_path@,
            info: RequestLogInfoView {
                client_headers: opt_view(self.client_headers),
                client_body: opt_view(self.client_body),
                forward_url: opt_view(self.forward_url),
                forward_headers: opt_view(self.forward_headers),
                forward_body: opt_view(self.forward_body),
                provider_headers: opt_view(self.provider_headers),
                provider_body: opt_view(self.provider_body),
                response_headers: opt_view(self.response_headers),
                response_body: opt_view(self.response_body),
                error_message: opt_view(self.error_message),
            },
        }
    }
}

/// The rows of the request log, in order.
pub open spec fn log_views(rows: Seq<RequestLogDetail>) -> Seq<RequestLogView> {
    Seq::new(rows.len(), |i: int| rows[i]@)
}

/// A system event row as contracts see it.
pub struct SystemLogView {
    pub id: i64,
    pub created_at: i64,
    pub level: Seq<char>,
    pub event_type: Seq<char>,
    pub message: Seq<char>,
    pub provider_name: Option<Seq<char>>,
    pub details: Option<Seq<char>>,
}

impl View for SystemLog {
    type V = SystemLogView;

    open spec fn view(&self) -> SystemLogView {
        SystemLogView {
            id: self.id,
            created_at: self.created_at,
            level: self.level@,
            event_type: self.event_type@,
            message: self.message@,
            provider_name: opt_view(self.provider_name),
            details: opt_view(self.details),
        }
    }
}

/// The rows of the system event log, in order.
pub open spec fn event_views(rows: Seq<SystemLog>) -> Seq<SystemLogView> {
    Seq::new(rows.len(), |i: int| rows[i]@)
}

/// The greatest of `ids` and 0.
pub open spec fn greatest_id(ids: Seq<i64>) -> i64
    decreases ids.len(),
{
    if ids.len() == 0 {
        0
    } else {
        let earlier = greatest_id(ids.drop_last());
        if ids.last() > earlier {
            ids.last()
        } else {
            earlier
        }
    }
}

/// The id that the next row of a table gets: one more than the greatest id in it.
pub open spec fn next_id(ids: Seq<i64>) -> i64 {
    held(greatest_id(ids) + 1)
}

/// The ids of the request log rows.
pub open spec fn log_ids(rows: Seq<RequestLogView>) -> Seq<i64> {
    Seq::new(rows.len(), |i: int| rows[i].id)
}

/// The ids of the system event rows.
pub open spec fn event_ids(rows: Seq<SystemLogView>) -> Seq<i64> {
    Seq::new(rows.len(), |i: int| rows[i].id)
}

/// The status code as the log holds it.
pub open spec fn logged_status(status: Option<u16>) -> Option<i64> {
    match status {
        Some(code) => Some(code as i64),
        None => None,
    }
}

/// The log details given, or details in which nothing is set.
pub open spec fn info_or_default(info: Option<RequestLogInfo>) -> RequestLogInfoView {
    match info {
        Some(i) => i@,
        None => no_details(),
    }
}

fn next_log_id(logs: &Vec<RequestLogDetail>) -> (r: i64)
    ensures
        r == next_id(log_ids(log_views(logs@))),
{
    let ghost ids = log_ids(log_views(logs@));
    let mut best: i64 = 0;
    let mut i: usize = 0;
    assert(ids.take(0) =~= Seq::empty());
    while i < logs.len()
        invariant
            i <= logs.len(),
            ids == log_ids(log_views(logs@)),
            best == greatest_id(ids.take(i as int)),
        decreases logs.len() - i,
    {
        assert(ids.take(i + 1).drop_last() =~= ids.take(i as int));
        if logs[i].id > best {
            best = logs[i].id;
        }
        i += 1;
    }
    assert(ids.take(logs.len() as int) =~= ids);
    hold(best as i128 + 1)
}

fn next_event_id(events: &Vec<SystemLog>) -> (r: i64)
    ensures
        r == next_id(event_ids(event_views(events@))),
{
    let ghost ids = event_ids(event_views(events@));
    let mut best: i64 = 0;
    let mut i: usize = 0;
    assert(ids.take(0) =~= Seq::empty());
    while i < events.len()
        invariant
            i <= events.len(),
            ids == event_ids(event_views(events@)),
            best == greatest_id(ids.take(i as int)),
        decreases events.len() - i,
    {
        assert(ids.take(i + 1).drop_last() =~= ids.take(i as int));
        if events[i].id > best {
            best = events[i].id;
        }
        i += 1;
    }
    assert(ids.take(events.len() as int) =~= ids);
    hold(best as i128 + 1)
}

/// Appends one row to the request log.
pub fn record_request_log(
    logs: &mut Vec<RequestLogDetail>,
    now: i64,
    cli_type: &str,
    provider_name: &str,
    model_id: Option<&str>,
    status_code: Option<u16>,
    elapsed_ms: i64,
    input_tokens: i64,
    output_tokens: i64,
    client_method: &str,
    client_path: &str,
    info: Option<RequestLogInfo>,
)
    ensures
        log_views(final(logs)@) == log_views(old(logs)@).push(
            RequestLogView {
                id: next_id(log_ids(log_views(old(logs)@))),
                created_at: now,
                cli_type: cli_type@,
                provider_name: provider_name@,
                model_id: opt_str_view(model_id),
                status_code: logged_status(status_code),
                elapsed_ms,
                input_tokens,
                output_tokens,
                client_method: client_method@,
                client_path: client_path@,
                info: info_or_default(info),
            },
        ),
{
    let ghost before = log_views(logs@);
    let info = match info {
        Some(i) => i,
        None => RequestLogInfo::default(),
    };
    let id = next_log_id(logs);
    let status: Option<i64> = match status_code {
        Some(code) => Some(code as i64),
        None => None,
    };
    let row = RequestLogDetail {
        id,
        created_at: now,
        cli_type: String::from_str(cli_type),
        provider_name: String::from_str(provider_name),
        model_id: own_opt(model_id),
        status_code: status,
        elapsed_ms,
        input_tokens,
        output_tokens,
        client_method: String::from_str(client_method),
        client_path: String::from_str(client_path),
        client_headers: info.client_headers,
        client_body: info.client_body,
        forward_url: info.forward_url,
        forward_headers: info.forward_headers,
        forward_body: info.forward_body,
        provider_headers: info.provider_headers,
        provider_body: info.provider_body,
        response_headers: info.response_headers,
        response_body: info.response_body,
        error_message: info.error_message,
    };
    let ghost row_view = row@;
    logs.push(row);
    assert(log_views(logs@) =~= before.push(row_view));
}

/// Appends one row to the system event log.
pub fn record_system_log(
    events: &mut Vec<SystemLog>,
    now: i64,
    level: &str,
    event_type: &str,
    message: &str,
    provider_name: Option<&str>,
    details: Option<&str>,
)
    ensures
        event_views(final(events)@) == event_views(old(events)@).push(
            SystemLogView {
                id: next_id(event_ids(event_views(old(events)@))),
                created_at: now,
                level: level@,
                event_type: event_type@,
                message: message@,
                provider_name: opt_str_view(provider_name),
                details: opt_str_view(details),
            },
        ),
{
    let ghost before = event_views(events@);
    let id = next_event_id(events);
    let row = SystemLog {
        id,
        created_at: now,
        level: String::from_str(level),
        event_type: String::from_str(event_type),
        message: String::from_str(message),
        provider_name: own_opt(provider_name),
        details: own_opt(details),
    };
    let ghost row_view = row@;
    events.push(row);
    assert(event_views(events@) =~= before.push(row_view));
}

/// The text of the details of a system event: the document written out as JSON.
pub fn create_log_details(data: &Value) -> (r: String)
    ensures
        r@ == match json_text(json_tree(*data)) {
            Some(text) => text,
            None => Seq::empty(),
        },
{
    match render_text(data) {
        Some(text) => text,
        None => String::new(),
    }
}

/// The telemetry store: the request log, the system event log and the daily usage table.
#[derive(Debug)]
pub struct Telemetry {
    pub request_logs: Vec<RequestLogDetail>,
    pub system_logs: Vec<SystemLog>,
    pub usage_daily: Vec<UsageDaily>,
}

/// The row under which a terminated request is logged.
pub open spec fn log_row_of(record: RequestRecord, id: i64, now: i64) -> RequestLogView {
    RequestLogView {
        id,
        created_at: now,
        cli_type: record.cli_type.tag(),
        provider_name: record.provider_name@,
        model_id: opt_view(record.model_id),
        status_code: logged_status(record.status_code),
        elapsed_ms: record.elapsed_ms,
        input_tokens: record.input_tokens,
        output_tokens: record.output_tokens,
        client_method: record.client_method@,
        client_path: record.client_path@,
        info: record.info@,
    }
}

/// A terminated request as the daily counters of `today` see it.
pub open spec fn increment_of(record: RequestRecord, today: Seq<char>) -> UsageIncrement {
    UsageIncrement {
        usage_date: today,
        provider_name: record.provider_name@,
        cli_type: record.cli_type.tag(),
        success: record.success,
        input_tokens: record.input_tokens,
        output_tokens: record.output_tokens,
    }
}

/// Writes a terminated request to the telemetry store: one row more in the request log, and
/// the request counted once in the daily usage of `today`. Events are not touched.
pub fn record_request_stats(store: &mut Telemetry, record: RequestRecord, now: i64, today: &str)
    ensures
        log_views(final(store).request_logs@) == log_views(old(store).request_logs@).push(
            log_row_of(record, next_id(log_ids(log_views(old(store).request_logs@))), now),
        ),
        usage_views(final(store).usage_daily@) == usage_counted(
            usage_views(old(store).usage_daily@),
            increment_of(record, today@),
        ),
        final(store).system_logs == old(store).system_logs,
{
    let tag = record.cli_type.as_str();
    record_request(
        &mut store.usage_daily,
        today,
        record.provider_name.as_str(),
        tag,
        record.success,
        record.input_tokens,
        record.output_tokens,
    );
    let model: Option<&str> = match &record.model_id {
        Some(m) => Some(m.as_str()),
        None => None,
    };
    record_request_log(
        &mut store.request_logs,
        now,
        tag,
        record.provider_name.as_str(),
        model,
        record.status_code,
        record.elapsed_ms,
        record.input_tokens,
        record.output_tokens,
        record.client_method.as_str(),
        record.client_path.as_str(),
        Some(record.info),
    );
}

/// Writes a system event to the telemetry store: one row more in the event log.
pub fn record_event(store: &mut Telemetry, event: &SystemEvent, now: i64)
    ensures
        event_views(final(store).system_logs@) == event_views(old(store).system_logs@).push(
            SystemLogView {
                id: next_id(event_ids(event_views(old(store).system_logs@))),
                created_at: now,
                level: event.level@,
                event_type: event.event_type@,
                message: event.message@,
                provider_name: opt_view(event.provider_name),
                details: opt_view(event.details),
            },
        ),
        final(store).request_logs == old(store).request_logs,
        final(store).usage_daily == old(store).usage_daily,
{
    let provider: Option<&str> = match &event.provider_name {
        Some(p) => Some(p.as_str()),
        None => None,
    };
    let details: Option<&str> = match &event.details {
        Some(d) => Some(d.as_str()),
        None => None,
    };
    record_system_log(
        &mut store.system_logs,
        now,
        event.level.as_str(),
        event.event_type.as_str(),
        event.message.as_str(),
        provider,
        details,
    );
}

/// The number of requests that the daily usage table counts.
pub open spec fn total_requests(rows: Seq<UsageDailyView>) -> int
    decreases rows.len(),
{
    if rows.len() == 0 {
        0
    } else {
        total_requests(rows.drop_last()) + rows.last().request_count
    }
}

proof fn lemma_total_after_update(rows: Seq<UsageDailyView>, i: int, row: UsageDailyView)
    requires
        0 <= i < rows.len(),
    ensures
        total_requests(rows.update(i, row)) == total_requests(rows) - rows[i].request_count
            + row.request_count,
    decreases rows.len(),
{
    let changed = rows.update(i, row);
    if i == rows.len() - 1 {
        assert(changed.drop_last() =~= rows.drop_last());
    } else {
        assert(changed.drop_last() =~= rows.drop_last().update(i, row));
        lemma_total_after_update(rows.drop_last(), i, row);
    }
}

proof fn lemma_key_index_bounds(
    rows: Seq<UsageDailyView>,
    date: Seq<char>,
    provider: Seq<char>,
    cli: Seq<char>,
)
    ensures
        key_index(rows, date, provider, cli) matches Some(i) ==> 0 <= i < rows.len() && same_key(
            rows[i],
            date,
            provider,
            cli,
        ),
    decreases rows.len(),
{
    if rows.len() > 0 {
        lemma_key_index_bounds(rows.drop_last(), date, provider, cli);
    }
}

/// Every terminated request adds exactly one row to the request log and is counted exactly
/// once in the daily usage: the number of rows grows by one, and so does the number of
/// requests counted, while no counter is at the end of its range.
pub proof fn lemma_one_row_one_count(
    logs: Seq<RequestLogView>,
    usage: Seq<UsageDailyView>,
    record: RequestRecord,
    id: i64,
    now: i64,
    today: Seq<char>,
)
    requires
        forall|i: int| 0 <= i < usage.len() ==> (#[trigger] usage[i]).request_count < i64::MAX,
    ensures
        logs.push(log_row_of(record, id, now)).len() == logs.len() + 1,
        total_requests(usage_counted(usage, increment_of(record, today))) == total_requests(
            usage,
        ) + 1,
{
    let inc = increment_of(record, today);
    lemma_key_index_bounds(usage, inc.usage_date, inc.provider_name, inc.cli_type);
    match key_index(usage, inc.usage_date, inc.provider_name, inc.cli_type) {
        Some(i) => {
            lemma_total_after_update(usage, i, counted(usage[i], inc));
        },
        None => {
            assert(usage.push(first_count(inc)).drop_last() =~= usage);
        },
    }
}

} // verus!
