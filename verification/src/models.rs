//! The rows of the two stores and the values the operator exchanges with the gateway.

use vstd::prelude::*;

verus! {

/// One configured upstream, as the store holds it.
#[derive(Debug, Clone)]
pub struct Provider {
    pub id: i64,
    pub cli_type: String,
    pub name: String,
    pub base_url: String,
    pub api_key: String,
    pub enabled: i64,
    pub failure_threshold: i64,
    pub blacklist_minutes: i64,
    pub consecutive_failures: i64,
    pub blacklisted_until: Option<i64>,
    pub sort_order: i64,
    pub created_at: i64,
    pub updated_at: i64,
}

/// One rule that rewrites a model identifier for a provider.
#[derive(Debug, Clone)]
pub struct ProviderModelMap {
    pub id: i64,
    pub provider_id: i64,
    pub source_model: String,
    pub target_model: String,
    pub enabled: i64,
}

/// A mapping rule as the operator enters it.
#[derive(Debug, Clone)]
pub struct ModelMapInput {
    pub source_model: String,
    pub target_model: String,
    pub enabled: bool,
}

/// What the operator enters to create a provider.
#[derive(Debug, Clone)]
pub struct ProviderCreate {
    pub cli_type: Option<String>,
    pub name: String,
    pub base_url: String,
    pub api_key: String,
    pub enabled: Option<bool>,
    pub failure_threshold: Option<i64>,
    pub blacklist_minutes: Option<i64>,
    pub model_maps: Option<Vec<ModelMapInput>>,
}

/// What the operator enters to change a provider: only the fields that are given change.
#[derive(Debug, Clone)]
pub struct ProviderUpdate {
    pub name: Option<String>,
    pub base_url: Option<String>,
    pub api_key: Option<String>,
    pub enabled: Option<bool>,
    pub failure_threshold: Option<i64>,
    pub blacklist_minutes: Option<i64>,
    pub model_maps: Option<Vec<ModelMapInput>>,
}

/// A mapping rule as it is shown.
#[derive(Debug, Clone)]
pub struct ModelMapResponse {
    pub id: i64,
    pub source_model: String,
    pub target_model: String,
    pub enabled: bool,
}

/// A provider as it is shown.
#[derive(Debug, Clone)]
pub struct ProviderResponse {
    pub id: i64,
    pub cli_type: String,
    pub name: String,
    pub base_url: String,
    pub api_key: String,
    pub enabled: bool,
    pub failure_threshold: i64,
    pub blacklist_minutes: i64,
    pub consecutive_failures: i64,
    pub blacklisted_until: Option<i64>,
    pub sort_order: i64,
    pub is_blacklisted: bool,
    pub model_maps: Vec<ModelMapResponse>,
}

impl ProviderResponse {
    /// The provider as it is shown at `now`, without its mappings: it counts as blacklisted
    /// while its expiry lies after `now`.
    pub fn from_provider(p: Provider, now: i64) -> (r: ProviderResponse)
        ensures
            r.id == p.id,
            r.cli_type == p.cli_type,
            r.name == p.name,
            r.base_url == p.base_url,
            r.api_key == p.api_key,
            r.enabled == (p.enabled != 0),
            r.failure_threshold == p.failure_threshold,
            r.blacklist_minutes == p.blacklist_minutes,
            r.consecutive_failures == p.consecutive_failures,
            r.blacklisted_until == p.blacklisted_until,
            r.sort_order == p.sort_order,
            r.is_blacklisted == (p.blacklisted_until matches Some(t) && t > now),
            r.model_maps@.len() == 0,
    {
        let is_blacklisted = match p.blacklisted_until {
            Some(t) => t > now,
            None => false,
        };
        ProviderResponse {
            id: p.id,
            cli_type: p.cli_type,
            name: p.name,
            base_url: p.base_url,
            api_key: p.api_key,
            enabled: p.enabled != 0,
            failure_threshold: p.failure_threshold,
            blacklist_minutes: p.blacklist_minutes,
            consecutive_failures: p.consecutive_failures,
            blacklisted_until: p.blacklisted_until,
            sort_order: p.sort_order,
            is_blacklisted,
            model_maps: Vec::new(),
        }
    }
}

/// The row of the gateway settings.
#[derive(Debug, Clone)]
pub struct GatewaySettingsRow {
    pub id: i64,
    pub debug_log: i64,
    pub updated_at: i64,
}

/// The gateway settings as they are shown.
#[derive(Debug)]
pub struct GatewaySettings {
    pub debug_log: i64,
}

/// The row of the timeout settings, in seconds.
#[derive(Debug, Clone)]
pub struct TimeoutSettingsRow {
    pub id: i64,
    pub stream_first_byte_timeout: i64,
    pub stream_idle_timeout: i64,
    pub non_stream_timeout: i64,
    pub updated_at: i64,
}

/// The three timeouts, in seconds.
#[derive(Debug)]
pub struct TimeoutSettings {
    pub stream_first_byte_timeout: i64,
    pub stream_idle_timeout: i64,
    pub non_stream_timeout: i64,
}

/// A change of the timeouts: only the values that are given change.
#[derive(Debug)]
pub struct TimeoutSettingsUpdate {
    pub stream_first_byte_timeout: Option<i64>,
    pub stream_idle_timeout: Option<i64>,
    pub non_stream_timeout: Option<i64>,
}

/// The row of the settings of one assistant.
#[derive(Debug)]
pub struct CliSettingsRow {
    pub cli_type: String,
    pub default_json_config: Option<String>,
    pub updated_at: i64,
}

/// The settings of one assistant as they are shown.
#[derive(Debug)]
pub struct CliSettingsResponse {
    pub cli_type: String,
    pub enabled: bool,
    pub default_json_config: String,
}

/// A change of the settings of one assistant.
#[derive(Debug)]
pub struct CliSettingsUpdate {
    pub enabled: Option<bool>,
    pub default_json_config: Option<String>,
}

/// The row of the WebDAV settings.
#[derive(Debug, Clone)]
pub struct WebdavSettingsRow {
    pub id: i64,
    pub url: Option<String>,
    pub username: Option<String>,
    pub password: Option<String>,
    pub path: Option<String>,
    pub enabled: i64,
    pub updated_at: i64,
}

/// The WebDAV settings as they are shown.
#[derive(Debug)]
pub struct WebdavSettings {
    pub url: String,
    pub username: String,
    pub password: String,
}

/// A change of the WebDAV settings.
#[derive(Debug)]
pub struct WebdavSettingsUpdate {
    pub url: Option<String>,
    pub username: Option<String>,
    pub password: Option<String>,
}

/// One backup file on the WebDAV server.
#[derive(Debug)]
pub struct WebdavBackup {
    pub filename: String,
    pub size: i64,
    pub modified: String,
}

/// The row of one MCP server configuration.
#[derive(Debug, Clone)]
pub struct McpConfig {
    pub id: i64,
    pub name: String,
    pub config_json: String,
    pub updated_at: i64,
}

/// Whether an MCP server is switched on for one assistant.
#[derive(Debug)]
pub struct McpCliFlag {
    pub cli_type: String,
    pub enabled: bool,
}

/// An MCP server configuration as it is shown.
#[derive(Debug)]
pub struct McpResponse {
    pub id: i64,
    pub name: String,
    pub config_json: String,
    pub cli_flags: Vec<McpCliFlag>,
}

/// What the operator enters to create an MCP server configuration.
#[derive(Debug)]
pub struct McpCreate {
    pub name: String,
    pub config_json: String,
    pub enabled: Option<bool>,
    pub cli_flags: Option<Vec<McpCliFlag>>,
}

/// What the operator enters to change an MCP server configuration.
#[derive(Debug)]
pub struct McpUpdate {
    pub name: Option<String>,
    pub config_json: Option<String>,
    pub enabled: Option<bool>,
    pub cli_flags: Option<Vec<McpCliFlag>>,
}

/// The row of one prompt preset.
#[derive(Debug, Clone)]
pub struct PromptPreset {
    pub id: i64,
    pub name: String,
    pub content: String,
    pub updated_at: i64,
}

/// Whether a prompt preset is switched on for one assistant.
#[derive(Debug)]
pub struct PromptCliFlag {
    pub cli_type: String,
    pub enabled: bool,
}

/// A prompt preset as it is shown.
#[derive(Debug)]
pub struct PromptResponse {
    pub id: i64,
    pub name: String,
    pub content: String,
    pub cli_flags: Vec<PromptCliFlag>,
}

/// What the operator enters to create a prompt preset.
#[derive(Debug)]
pub struct PromptCreate {
    pub name: String,
    pub content: String,
    pub enabled: Option<bool>,
    pub cli_flags: Option<Vec<PromptCliFlag>>,
}

/// What the operator enters to change a prompt preset.
#[derive(Debug)]
pub struct PromptUpdate {
    pub name: Option<String>,
    pub content: Option<String>,
    pub enabled: Option<bool>,
    pub cli_flags: Option<Vec<PromptCliFlag>>,
}

/// A request log row as lists show it.
#[derive(Debug)]
pub struct RequestLogItem {
    pub id: i64,
    pub created_at: i64,
    pub cli_type: String,
    pub provider_name: String,
    pub model_id: Option<String>,
    pub status_code: Option<i64>,
    pub elapsed_ms: i64,
    pub input_tokens: i64,
    pub output_tokens: i64,
    pub client_method: String,
    pub client_path: String,
}

/// A whole request log row.
#[derive(Debug)]
pub struct RequestLogDetail {
    pub id: i64,
    pub created_at: i64,
    pub cli_type: String,
    pub provider_name: String,
    pub model_id: Option<String>,
    pub status_code: Option<i64>,
    pub elapsed_ms: i64,
    pub input_tokens: i64,
    pub output_tokens: i64,
    pub client_method: String,
    pub client_path: String,
    pub client_headers: Option<String>,
    pub client_body: Option<String>,
    pub forward_url: Option<String>,
    pub forward_headers: Option<String>,
    pub forward_body: Option<String>,
    pub provider_headers: Option<String>,
    pub provider_body: Option<String>,
    pub response_headers: Option<String>,
    pub response_body: Option<String>,
    pub error_message: Option<String>,
}

/// One page of request log rows.
#[derive(Debug)]
pub struct PaginatedLogs {
    pub items: Vec<RequestLogItem>,
    pub total: i64,
    pub page: i64,
    pub page_size: i64,
}

/// A system event row.
#[derive(Debug, Clone)]
pub struct SystemLog {
    pub id: i64,
    pub created_at: i64,
    pub level: String,
    pub event_type: String,
    pub message: String,
    pub provider_name: Option<String>,
    pub details: Option<String>,
}

/// A system event row as lists show it.
#[derive(Debug)]
pub struct SystemLogItem {
    pub id: i64,
    pub created_at: i64,
    pub level: String,
    pub event_type: String,
    pub provider_name: Option<String>,
    pub message: String,
    pub details: Option<String>,
}

/// One page of system event rows.
#[derive(Debug)]
pub struct SystemLogListResponse {
    pub items: Vec<SystemLogItem>,
    pub total: i64,
    pub page: i64,
    pub page_size: i64,
}

/// The counters of one day, one provider and one variant.
#[derive(Debug, Clone)]
pub struct UsageDaily {
    pub usage_date: String,
    pub provider_name: String,
    pub cli_type: String,
    pub request_count: i64,
    pub success_count: i64,
    pub failure_count: i64,
    pub input_tokens: i64,
    pub output_tokens: i64,
}

/// The totals of one provider, variant and model over the request log.
#[derive(Debug)]
pub struct ProviderStatsRow {
    pub cli_type: String,
    pub provider_name: String,
    pub model_id: String,
    pub total_requests: i64,
    pub total_success: i64,
    pub total_tokens: i64,
    pub total_elapsed_ms: i64,
}

/// One message of a recorded session.
#[derive(Debug)]
pub struct SessionMessage {
    pub role: String,
    pub content: String,
    pub timestamp: Option<i64>,
}

/// The state of the gateway as it is shown.
#[derive(Debug)]
pub struct SystemStatus {
    pub status: String,
    pub port: u16,
    pub uptime: i64,
    pub version: String,
}

/// The instant at which the gateway started, in seconds since the epoch.
#[derive(Debug)]
pub struct StartTime(pub i64);

} // verus!
