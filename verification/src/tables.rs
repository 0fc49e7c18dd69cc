//! The tables of the configuration store and of the telemetry store.

use crate::schema::{
    column_views, table_views, text_lists, texts, ColumnDefinition, ColumnView, TableDefinition,
    TableView,
};
use vstd::prelude::*;

verus! {

/// A column that must be given: not nullable, without default.
pub open spec fn required(name: Seq<char>, data_type: Seq<char>) -> ColumnView {
    ColumnView { name, data_type, nullable: false, default_value: None }
}

/// A column that may be null.
pub open spec fn optional(name: Seq<char>, data_type: Seq<char>) -> ColumnView {
    ColumnView { name, data_type, nullable: true, default_value: None }
}

/// A column that is not nullable and has a default.
pub open spec fn defaulted(name: Seq<char>, data_type: Seq<char>, default: Seq<char>)
    -> ColumnView {
    ColumnView { name, data_type, nullable: false, default_value: Some(default) }
}

fn add_required(columns: &mut Vec<ColumnDefinition>, name: &str, data_type: &str)
    ensures
        column_views(final(columns)@) == column_views(old(columns)@).push(
            required(name@, data_type@),
        ),
{
    let ghost before = column_views(columns@);
    columns.push(
        ColumnDefinition {
            name: String::from_str(name),
            data_type: String::from_str(data_type),
            nullable: false,
            default_value: None,
        },
    );
    assert(column_views(columns@) =~= before.push(required(name@, data_type@)));
}

fn add_optional(columns: &mut Vec<ColumnDefinition>, name: &str, data_type: &str)
    ensures
        column_views(final(columns)@) == column_views(old(columns)@).push(
            optional(name@, data_type@),
        ),
{
    let ghost before = column_views(columns@);
    columns.push(
        ColumnDefinition {
            name: String::from_str(name),
            data_type: String::from_str(data_type),
            nullable: true,
            default_value: None,
        },
    );
    assert(column_views(columns@) =~= before.push(optional(name@, data_type@)));
}

fn add_defaulted(columns: &mut Vec<ColumnDefinition>, name: &str, data_type: &str, default: &str)
    ensures
        column_views(final(columns)@) == column_views(old(columns)@).push(
            defaulted(name@, data_type@, default@),
        ),
{
    let ghost before = column_views(columns@);
    columns.push(
        ColumnDefinition {
            name: String::from_str(name),
            data_type: String::from_str(data_type),
            nullable: false,
            default_value: Some(String::from_str(default)),
        },
    );
    assert(column_views(columns@) =~= before.push(defaulted(name@, data_type@, default@)));
}

fn add_name(names: &mut Vec<String>, name: &str)
    ensures
        texts(final(names)@) == texts(old(names)@).push(name@),
{
    let ghost before = texts(names@);
    names.push(String::from_str(name));
    assert(texts(names@) =~= before.push(name@));
}

fn add_names(lists: &mut Vec<Vec<String>>, names: Vec<String>)
    ensures
        text_lists(final(lists)@) == text_lists(old(lists)@).push(texts(names@)),
{
    let ghost before = text_lists(lists@);
    lists.push(names);
    assert(text_lists(lists@) =~= before.push(texts(names@)));
}

fn add_table(tables: &mut Vec<TableDefinition>, table: TableDefinition)
    ensures
        table_views(final(tables)@) == table_views(old(tables)@).push(table@),
{
    let ghost before = table_views(tables@);
    let ghost view = table@;
    tables.push(table);
    assert(table_views(tables@) =~= before.push(view));
}

/// The configured upstreams; a variant has no two providers of one name.
pub open spec fn providers_table() -> TableView {
    TableView {
        name: "providers"@,
        columns: Seq::empty()
            .push(required("id"@, "INTEGER"@))
            .push(defaulted("cli_type"@, "TEXT"@, "'claude_code'"@))
            .push(required("name"@, "TEXT"@))
            .push(required("base_url"@, "TEXT"@))
            .push(required("api_key"@, "TEXT"@))
            .push(defaulted("enabled"@, "INTEGER"@, "1"@))
            .push(defaulted("failure_threshold"@, "INTEGER"@, "3"@))
            .push(defaulted("blacklist_minutes"@, "INTEGER"@, "10"@))
            .push(defaulted("consecutive_failures"@, "INTEGER"@, "0"@))
            .push(optional("blacklisted_until"@, "INTEGER"@))
            .push(defaulted("sort_order"@, "INTEGER"@, "0"@))
            .push(required("created_at"@, "INTEGER"@))
            .push(required("updated_at"@, "INTEGER"@)),
        primary_key: Seq::empty()
            .push("id"@),
        unique_constraints: Seq::empty()
            .push(Seq::empty().push("cli_type"@).push("name"@)),
    }
}

fn define_providers() -> (t: TableDefinition)
    ensures
        t@ == providers_table(),
{
    let mut columns: Vec<ColumnDefinition> = Vec::new();
    assert(column_views(columns@) =~= Seq::empty());
    add_required(&mut columns, "id", "INTEGER");
    add_defaulted(&mut columns, "cli_type", "TEXT", "'claude_code'");
    add_required(&mut columns, "name", "TEXT");
    add_required(&mut columns, "base_url", "TEXT");
    add_required(&mut columns, "api_key", "TEXT");
    add_defaulted(&mut columns, "enabled", "INTEGER", "1");
    add_defaulted(&mut columns, "failure_threshold", "INTEGER", "3");
    add_defaulted(&mut columns, "blacklist_minutes", "INTEGER", "10");
    add_defaulted(&mut columns, "consecutive_failures", "INTEGER", "0");
    add_optional(&mut columns, "blacklisted_until", "INTEGER");
    add_defaulted(&mut columns, "sort_order", "INTEGER", "0");
    add_required(&mut columns, "created_at", "INTEGER");
    add_required(&mut columns, "updated_at", "INTEGER");
    let mut primary_key: Vec<String> = Vec::new();
    assert(texts(primary_key@) =~= Seq::empty());
    add_name(&mut primary_key, "id");
    let mut unique_constraints: Vec<Vec<String>> = Vec::new();
    assert(text_lists(unique_constraints@) =~= Seq::empty());
    let mut unique: Vec<String> = Vec::new();
    assert(texts(unique@) =~= Seq::empty());
    add_name(&mut unique, "cli_type");
    add_name(&mut unique, "name");
    add_names(&mut unique_constraints, unique);
    TableDefinition {
        name: String::from_str("providers"),
        columns,
        primary_key,
        unique_constraints,
    }
}

/// The model mappings; a provider has no two rules for one source pattern.
pub open spec fn provider_model_map_table() -> TableView {
    TableView {
        name: "provider_model_map"@,
        columns: Seq::empty()
            .push(required("id"@, "INTEGER"@))
            .push(required("provider_id"@, "INTEGER"@))
            .push(required("source_model"@, "TEXT"@))
            .push(required("target_model"@, "TEXT"@))
            .push(defaulted("enabled"@, "INTEGER"@, "1"@)),
        primary_key: Seq::empty()
            .push("id"@),
        unique_constraints: Seq::empty()
            .push(Seq::empty().push("provider_id"@).push("source_model"@)),
    }
}

fn define_provider_model_map() -> (t: TableDefinition)
    ensures
        t@ == provider_model_map_table(),
{
    let mut columns: Vec<ColumnDefinition> = Vec::new();
    assert(column_views(columns@) =~= Seq::empty());
    add_required(&mut columns, "id", "INTEGER");
    add_required(&mut columns, "provider_id", "INTEGER");
    add_required(&mut columns, "source_model", "TEXT");
    add_required(&mut columns, "target_model", "TEXT");
    add_defaulted(&mut columns, "enabled", "INTEGER", "1");
    let mut primary_key: Vec<String> = Vec::new();
    assert(texts(primary_key@) =~= Seq::empty());
    add_name(&mut primary_key, "id");
    let mut unique_constraints: Vec<Vec<String>> = Vec::new();
    assert(text_lists(unique_constraints@) =~= Seq::empty());
    let mut unique: Vec<String> = Vec::new();
    assert(texts(unique@) =~= Seq::empty());
    add_name(&mut unique, "provider_id");
    add_name(&mut unique, "source_model");
    add_names(&mut unique_constraints, unique);
    TableDefinition {
        name: String::from_str("provider_model_map"),
        columns,
        primary_key,
        unique_constraints,
    }
}

/// The gateway settings, a single row.
pub open spec fn gateway_settings_table() -> TableView {
    TableView {
        name: "gateway_settings"@,
        columns: Seq::empty()
            .push(defaulted("id"@, "INTEGER"@, "1"@))
            .push(defaulted("debug_log"@, "INTEGER"@, "0"@))
            .push(required("updated_at"@, "INTEGER"@)),
        primary_key: Seq::empty()
            .push("id"@),
        unique_constraints: Seq::empty(),
    }
}

fn define_gateway_settings() -> (t: TableDefinition)
    ensures
        t@ == gateway_settings_table(),
{
    let mut columns: Vec<ColumnDefinition> = Vec::new();
    assert(column_views(columns@) =~= Seq::empty());
    add_defaulted(&mut columns, "id", "INTEGER", "1");
    add_defaulted(&mut columns, "debug_log", "INTEGER", "0");
    add_required(&mut columns, "updated_at", "INTEGER");
    let mut primary_key: Vec<String> = Vec::new();
    assert(texts(primary_key@) =~= Seq::empty());
    add_name(&mut primary_key, "id");
    let mut unique_constraints: Vec<Vec<String>> = Vec::new();
    assert(text_lists(unique_constraints@) =~= Seq::empty());
    TableDefinition {
        name: String::from_str("gateway_settings"),
        columns,
        primary_key,
        unique_constraints,
    }
}

/// The three timeouts in seconds, a single row.
pub open spec fn timeout_settings_table() -> TableView {
    TableView {
        name: "timeout_settings"@,
        columns: Seq::empty()
            .push(defaulted("id"@, "INTEGER"@, "1"@))
            .push(defaulted("stream_first_byte_timeout"@, "INTEGER"@, "30"@))
            .push(defaulted("stream_idle_timeout"@, "INTEGER"@, "60"@))
            .push(defaulted("non_stream_timeout"@, "INTEGER"@, "120"@))
            .push(required("updated_at"@, "INTEGER"@)),
        primary_key: Seq::empty()
            .push("id"@),
        unique_constraints: Seq::empty(),
    }
}

fn define_timeout_settings() -> (t: TableDefinition)
    ensures
        t@ == timeout_settings_table(),
{
    let mut columns: Vec<ColumnDefinition> = Vec::new();
    assert(column_views(columns@) =~= Seq::empty());
    add_defaulted(&mut columns, "id", "INTEGER", "1");
    add_defaulted(&mut columns, "stream_first_byte_timeout", "INTEGER", "30");
    add_defaulted(&mut columns, "stream_idle_timeout", "INTEGER", "60");
    add_defaulted(&mut columns, "non_stream_timeout", "INTEGER", "120");
    add_required(&mut columns, "updated_at", "INTEGER");
    let mut primary_key: Vec<String> = Vec::new();
    assert(texts(primary_key@) =~= Seq::empty());
    add_name(&mut primary_key, "id");
    let mut unique_constraints: Vec<Vec<String>> = Vec::new();
    assert(text_lists(unique_constraints@) =~= Seq::empty());
    TableDefinition {
        name: String::from_str("timeout_settings"),
        columns,
        primary_key,
        unique_constraints,
    }
}

/// The settings of each assistant.
pub open spec fn cli_settings_table() -> TableView {
    TableView {
        name: "cli_settings"@,
        columns: Seq::empty()
            .push(required("cli_type"@, "TEXT"@))
            .push(optional("default_json_config"@, "TEXT"@))
            .push(required("updated_at"@, "INTEGER"@)),
        primary_key: Seq::empty()
            .push("cli_type"@),
        unique_constraints: Seq::empty(),
    }
}

fn define_cli_settings() -> (t: TableDefinition)
    ensures
        t@ == cli_settings_table(),
{
    let mut columns: Vec<ColumnDefinition> = Vec::new();
    assert(column_views(columns@) =~= Seq::empty());
    add_required(&mut columns, "cli_type", "TEXT");
    add_optional(&mut columns, "default_json_config", "TEXT");
    add_required(&mut columns, "updated_at", "INTEGER");
    let mut primary_key: Vec<String> = Vec::new();
    assert(texts(primary_key@) =~= Seq::empty());
    add_name(&mut primary_key, "cli_type");
    let mut unique_constraints: Vec<Vec<String>> = Vec::new();
    assert(text_lists(unique_constraints@) =~= Seq::empty());
    TableDefinition {
        name: String::from_str("cli_settings"),
        columns,
        primary_key,
        unique_constraints,
    }
}

/// The MCP server configurations.
pub open spec fn mcp_configs_table() -> TableView {
    TableView {
        name: "mcp_configs"@,
        columns: Seq::empty()
            .push(required("id"@, "INTEGER"@))
            .push(required("name"@, "TEXT"@))
            .push(required("config_json"@, "TEXT"@))
            .push(required("updated_at"@, "INTEGER"@)),
        primary_key: Seq::empty()
            .push("id"@),
        unique_constraints: Seq::empty()
            .push(Seq::empty().push("name"@)),
    }
}

fn define_mcp_configs() -> (t: TableDefinition)
    ensures
        t@ == mcp_configs_table(),
{
    let mut columns: Vec<ColumnDefinition> = Vec::new();
    assert(column_views(columns@) =~= Seq::empty());
    add_required(&mut columns, "id", "INTEGER");
    add_required(&mut columns, "name", "TEXT");
    add_required(&mut columns, "config_json", "TEXT");
    add_required(&mut columns, "updated_at", "INTEGER");
    let mut primary_key: Vec<String> = Vec::new();
    assert(texts(primary_key@) =~= Seq::empty());
    add_name(&mut primary_key, "id");
    let mut unique_constraints: Vec<Vec<String>> = Vec::new();
    assert(text_lists(unique_constraints@) =~= Seq::empty());
    let mut unique: Vec<String> = Vec::new();
    assert(texts(unique@) =~= Seq::empty());
    add_name(&mut unique, "name");
    add_names(&mut unique_constraints, unique);
    TableDefinition {
        name: String::from_str("mcp_configs"),
        columns,
        primary_key,
        unique_constraints,
    }
}

/// The prompt presets.
pub open spec fn prompt_presets_table() -> TableView {
    TableView {
        name: "prompt_presets"@,
        columns: Seq::empty()
            .push(required("id"@, "INTEGER"@))
            .push(required("name"@, "TEXT"@))
            .push(required("content"@, "TEXT"@))
            .push(required("updated_at"@, "INTEGER"@)),
        primary_key: Seq::empty()
            .push("id"@),
        unique_constraints: Seq::empty()
            .push(Seq::empty().push("name"@)),
    }
}

fn define_prompt_presets() -> (t: TableDefinition)
    ensures
        t@ == prompt_presets_table(),
{
    let mut columns: Vec<ColumnDefinition> = Vec::new();
    assert(column_views(columns@) =~= Seq::empty());
    add_required(&mut columns, "id", "INTEGER");
    add_required(&mut columns, "name", "TEXT");
    add_required(&mut columns, "content", "TEXT");
    add_required(&mut columns, "updated_at", "INTEGER");
    let mut primary_key: Vec<String> = Vec::new();
    assert(texts(primary_key@) =~= Seq::empty());
    add_name(&mut primary_key, "id");
    let mut unique_constraints: Vec<Vec<String>> = Vec::new();
    assert(text_lists(unique_constraints@) =~= Seq::empty());
    let mut unique: Vec<String> = Vec::new();
    assert(texts(unique@) =~= Seq::empty());
    add_name(&mut unique, "name");
    add_names(&mut unique_constraints, unique);
    TableDefinition {
        name: String::from_str("prompt_presets"),
        columns,
        primary_key,
        unique_constraints,
    }
}

/// The WebDAV settings, a single row.
pub open spec fn webdav_settings_table() -> TableView {
    TableView {
        name: "webdav_settings"@,
        columns: Seq::empty()
            .push(defaulted("id"@, "INTEGER"@, "1"@))
            .push(optional("url"@, "TEXT"@))
            .push(optional("username"@, "TEXT"@))
            .push(optional("password"@, "TEXT"@))
            .push(optional("path"@, "TEXT"@))
            .push(defaulted("enabled"@, "INTEGER"@, "0"@))
            .push(required("updated_at"@, "INTEGER"@)),
        primary_key: Seq::empty()
            .push("id"@),
        unique_constraints: Seq::empty(),
    }
}

fn define_webdav_settings() -> (t: TableDefinition)
    ensures
        t@ == webdav_settings_table(),
{
    let mut columns: Vec<ColumnDefinition> = Vec::new();
    assert(column_views(columns@) =~= Seq::empty());
    add_defaulted(&mut columns, "id", "INTEGER", "1");
    add_optional(&mut columns, "url", "TEXT");
    add_optional(&mut columns, "username", "TEXT");
    add_optional(&mut columns, "password", "TEXT");
    add_optional(&mut columns, "path", "TEXT");
    add_defaulted(&mut columns, "enabled", "INTEGER", "0");
    add_required(&mut columns, "updated_at", "INTEGER");
    let mut primary_key: Vec<String> = Vec::new();
    assert(texts(primary_key@) =~= Seq::empty());
    add_name(&mut primary_key, "id");
    let mut unique_constraints: Vec<Vec<String>> = Vec::new();
    assert(text_lists(unique_constraints@) =~= Seq::empty());
    TableDefinition {
        name: String::from_str("webdav_settings"),
        columns,
        primary_key,
        unique_constraints,
    }
}

/// The request log: one row for each terminated request.
pub open spec fn request_logs_table() -> TableView {
    TableView {
        name: "request_logs"@,
        columns: Seq::empty()
            .push(required("id"@, "INTEGER"@))
            .push(required("created_at"@, "INTEGER"@))
            .push(required("cli_type"@, "TEXT"@))
            .push(required("provider_name"@, "TEXT"@))
            .push(optional("model_id"@, "TEXT"@))
            .push(optional("status_code"@, "INTEGER"@))
            .push(defaulted("elapsed_ms"@, "INTEGER"@, "0"@))
            .push(defaulted("input_tokens"@, "INTEGER"@, "0"@))
            .push(defaulted("output_tokens"@, "INTEGER"@, "0"@))
            .push(required("client_method"@, "TEXT"@))
            .push(required("client_path"@, "TEXT"@))
            .push(optional("client_headers"@, "TEXT"@))
            .push(optional("client_body"@, "TEXT"@))
            .push(optional("forward_url"@, "TEXT"@))
            .push(optional("forward_headers"@, "TEXT"@))
            .push(optional("forward_body"@, "TEXT"@))
            .push(optional("provider_headers"@, "TEXT"@))
            .push(optional("provider_body"@, "TEXT"@))
            .push(optional("response_headers"@, "TEXT"@))
            .push(optional("response_body"@, "TEXT"@))
            .push(optional("error_message"@, "TEXT"@)),
        primary_key: Seq::empty()
            .push("id"@),
        unique_constraints: Seq::empty(),
    }
}

fn define_request_logs() -> (t: TableDefinition)
    ensures
        t@ == request_logs_table(),
{
    let mut columns: Vec<ColumnDefinition> = Vec::new();
    assert(column_views(columns@) =~= Seq::empty());
    add_required(&mut columns, "id", "INTEGER");
    add_required(&mut columns, "created_at", "INTEGER");
    add_required(&mut columns, "cli_type", "TEXT");
    add_required(&mut columns, "provider_name", "TEXT");
    add_optional(&mut columns, "model_id", "TEXT");
    add_optional(&mut columns, "status_code", "INTEGER");
    add_defaulted(&mut columns, "elapsed_ms", "INTEGER", "0");
    add_defaulted(&mut columns, "input_tokens", "INTEGER", "0");
    add_defaulted(&mut columns, "output_tokens", "INTEGER", "0");
    add_required(&mut columns, "client_method", "TEXT");
    add_required(&mut columns, "client_path", "TEXT");
    add_optional(&mut columns, "client_headers", "TEXT");
    add_optional(&mut columns, "client_body", "TEXT");
    add_optional(&mut columns, "forward_url", "TEXT");
    add_optional(&mut columns, "forward_headers", "TEXT");
    add_optional(&mut columns, "forward_body", "TEXT");
    add_optional(&mut columns, "provider_headers", "TEXT");
    add_optional(&mut columns, "provider_body", "TEXT");
    add_optional(&mut columns, "response_headers", "TEXT");
    add_optional(&mut columns, "response_body", "TEXT");
    add_optional(&mut columns, "error_message", "TEXT");
    let mut primary_key: Vec<String> = Vec::new();
    assert(texts(primary_key@) =~= Seq::empty());
    add_name(&mut primary_key, "id");
    let mut unique_constraints: Vec<Vec<String>> = Vec::new();
    assert(text_lists(unique_constraints@) =~= Seq::empty());
    TableDefinition {
        name: String::from_str("request_logs"),
        columns,
        primary_key,
        unique_constraints,
    }
}

/// The system event log.
pub open spec fn system_logs_table() -> TableView {
    TableView {
        name: "system_logs"@,
        columns: Seq::empty()
            .push(required("id"@, "INTEGER"@))
            .push(required("created_at"@, "INTEGER"@))
            .push(required("level"@, "TEXT"@))
            .push(required("event_type"@, "TEXT"@))
            .push(required("message"@, "TEXT"@))
            .push(optional("provider_name"@, "TEXT"@))
            .push(optional("details"@, "TEXT"@)),
        primary_key: Seq::empty()
            .push("id"@),
        unique_constraints: Seq::empty(),
    }
}

fn define_system_logs() -> (t: TableDefinition)
    ensures
        t@ == system_logs_table(),
{
    let mut columns: Vec<ColumnDefinition> = Vec::new();
    assert(column_views(columns@) =~= Seq::empty());
    add_required(&mut columns, "id", "INTEGER");
    add_required(&mut columns, "created_at", "INTEGER");
    add_required(&mut columns, "level", "TEXT");
    add_required(&mut columns, "event_type", "TEXT");
    add_required(&mut columns, "message", "TEXT");
    add_optional(&mut columns, "provider_name", "TEXT");
    add_optional(&mut columns, "details", "TEXT");
    let mut primary_key: Vec<String> = Vec::new();
    assert(texts(primary_key@) =~= Seq::empty());
    add_name(&mut primary_key, "id");
    let mut unique_constraints: Vec<Vec<String>> = Vec::new();
    assert(text_lists(unique_constraints@) =~= Seq::empty());
    TableDefinition {
        name: String::from_str("system_logs"),
        columns,
        primary_key,
        unique_constraints,
    }
}

/// The daily usage counters, one row for each day, provider and variant.
pub open spec fn usage_daily_table() -> TableView {
    TableView {
        name: "usage_daily"@,
        columns: Seq::empty()
            .push(required("usage_date"@, "TEXT"@))
            .push(required("provider_name"@, "TEXT"@))
            .push(required("cli_type"@, "TEXT"@))
            .push(defaulted("request_count"@, "INTEGER"@, "0"@))
            .push(defaulted("success_count"@, "INTEGER"@, "0"@))
            .push(defaulted("failure_count"@, "INTEGER"@, "0"@))
            .push(defaulted("input_tokens"@, "INTEGER"@, "0"@))
            .push(defaulted("output_tokens"@, "INTEGER"@, "0"@)),
        primary_key: Seq::empty()
            .push("usage_date"@)
            .push("provider_name"@)
            .push("cli_type"@),
        unique_constraints: Seq::empty(),
    }
}

fn define_usage_daily() -> (t: TableDefinition)
    ensures
        t@ == usage_daily_table(),
{
    let mut columns: Vec<ColumnDefinition> = Vec::new();
    assert(column_views(columns@) =~= Seq::empty());
    add_required(&mut columns, "usage_date", "TEXT");
    add_required(&mut columns, "provider_name", "TEXT");
    add_required(&mut columns, "cli_type", "TEXT");
    add_defaulted(&mut columns, "request_count", "INTEGER", "0");
    add_defaulted(&mut columns, "success_count", "INTEGER", "0");
    add_defaulted(&mut columns, "failure_count", "INTEGER", "0");
    add_defaulted(&mut columns, "input_tokens", "INTEGER", "0");
    add_defaulted(&mut columns, "output_tokens", "INTEGER", "0");
    let mut primary_key: Vec<String> = Vec::new();
    assert(texts(primary_key@) =~= Seq::empty());
    add_name(&mut primary_key, "usage_date");
    add_name(&mut primary_key, "provider_name");
    add_name(&mut primary_key, "cli_type");
    let mut unique_constraints: Vec<Vec<String>> = Vec::new();
    assert(text_lists(unique_constraints@) =~= Seq::empty());
    TableDefinition {
        name: String::from_str("usage_daily"),
        columns,
        primary_key,
        unique_constraints,
    }
}

/// The tables of the configuration store.
pub open spec fn main_tables() -> Seq<TableView> {
    Seq::empty()
        .push(providers_table())
        .push(provider_model_map_table())
        .push(gateway_settings_table())
        .push(timeout_settings_table())
        .push(cli_settings_table())
        .push(mcp_configs_table())
        .push(prompt_presets_table())
        .push(webdav_settings_table())
}

/// The tables of the configuration store.
pub fn define_main_tables() -> (tables: Vec<TableDefinition>)
    ensures
        table_views(tables@) == main_tables(),
{
    let mut tables: Vec<TableDefinition> = Vec::new();
    assert(table_views(tables@) =~= Seq::empty());
    add_table(&mut tables, define_providers());
    add_table(&mut tables, define_provider_model_map());
    add_table(&mut tables, define_gateway_settings());
    add_table(&mut tables, define_timeout_settings());
    add_table(&mut tables, define_cli_settings());
    add_table(&mut tables, define_mcp_configs());
    add_table(&mut tables, define_prompt_presets());
    add_table(&mut tables, define_webdav_settings());
    tables
}

/// The tables of the telemetry store.
pub open spec fn log_tables() -> Seq<TableView> {
    Seq::empty()
        .push(request_logs_table())
        .push(system_logs_table())
        .push(usage_daily_table())
}

/// The tables of the telemetry store.
pub fn define_log_tables() -> (tables: Vec<TableDefinition>)
    ensures
        table_views(tables@) == log_tables(),
{
    let mut tables: Vec<TableDefinition> = Vec::new();
    assert(table_views(tables@) =~= Seq::empty());
    add_table(&mut tables, define_request_logs());
    add_table(&mut tables, define_system_logs());
    add_table(&mut tables, define_usage_daily());
    tables
}

} // verus!
