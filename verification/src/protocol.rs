//! The trigger protocol's data: JSON-RPC messages and what they carry.

use crate::json::{Json, JsonView};
use vstd::prelude::*;

verus! {

/// JSON-RPC: the method is not available.
pub const METHOD_NOT_FOUND: i32 = -32601;

/// JSON-RPC: the parameters are invalid.
pub const INVALID_PARAMS: i32 = -32602;

/// JSON-RPC: internal error.
pub const INTERNAL_ERROR: i32 = -32603;

/// Start the event stream.
pub const METHOD_TRIGGER_WATCH: &'static str = "trigger/watch";

/// Describe the events.
pub const METHOD_TRIGGER_SCHEMA: &'static str = "trigger/schema";

/// Acknowledge an event.
pub const METHOD_TRIGGER_ACK: &'static str = "trigger/ack";

/// The notification that carries an event.
pub const NOTIFICATION_TRIGGER_EVENT: &'static str = "trigger/event";

/// The plugin kind of a trigger backend.
pub const PLUGIN_KIND_TRIGGER_BACKEND: &'static str = "trigger_backend";

/// A JSON-RPC request.
#[derive(Debug)]
pub struct RpcRequest {
    pub id: Option<Json>,
    pub method: String,
    pub params: Option<Json>,
}

/// A JSON-RPC error.
#[derive(Debug)]
pub struct RpcError {
    pub code: i32,
    pub message: String,
    pub data: Option<Json>,
}

/// What an error says.
pub struct RpcErrorView {
    pub code: i32,
    pub message: Seq<char>,
    pub data: Option<JsonView>,
}

/// A JSON-RPC response.
#[derive(Debug)]
pub struct RpcResponse {
    pub id: Option<Json>,
    pub outcome: Result<Json, RpcError>,
}

/// What a response says.
pub struct RpcResponseView {
    pub id: Option<JsonView>,
    pub outcome: OutcomeView,
}

/// A result, or an error.
pub enum OutcomeView {
    Done(JsonView),
    Failed(RpcErrorView),
}

/// A JSON-RPC notification.
#[derive(Debug)]
pub struct RpcNotification {
    pub method: String,
    pub params: Json,
}

/// The view of an optional value.
pub open spec fn optional(json: Option<Json>) -> Option<JsonView> {
    match json {
        Some(value) => Some(value@),
        None => None,
    }
}

/// A copy of an optional value.
pub fn copy_optional(json: &Option<Json>) -> (r: Option<Json>)
    ensures
        optional(r) == optional(*json),
{
    match json {
        Some(value) => Some(value.clone()),
        None => None,
    }
}

impl View for RpcError {
    type V = RpcErrorView;

    open spec fn view(&self) -> RpcErrorView {
        RpcErrorView { code: self.code, message: self.message@, data: optional(self.data) }
    }
}

impl View for RpcResponse {
    type V = RpcResponseView;

    open spec fn view(&self) -> RpcResponseView {
        RpcResponseView {
            id: optional(self.id),
            outcome: match self.outcome {
                Ok(value) => OutcomeView::Done(value@),
                Err(error) => OutcomeView::Failed(error@),
            },
        }
    }
}

impl RpcResponse {
    /// A response with a result.
    pub fn ok(id: Option<Json>, result: Json) -> (r: RpcResponse)
        ensures
            r@ == (RpcResponseView { id: optional(id), outcome: OutcomeView::Done(result@) }),
    {
        RpcResponse { id, outcome: Ok(result) }
    }

    /// A response with an error.
    pub fn err(id: Option<Json>, error: RpcError) -> (r: RpcResponse)
        ensures
            r@ == (RpcResponseView { id: optional(id), outcome: OutcomeView::Failed(error@) }),
    {
        RpcResponse { id, outcome: Err(error) }
    }
}

/// Why the backend cannot serve.
#[derive(Debug)]
pub enum BackendError {
    /// A credential is missing.
    Unavailable(String),
}

/// Whether the backend can serve.
#[derive(Debug, Clone, Copy, PartialEq, Eq, Structural)]
pub enum HealthStatus {
    Healthy,
    Unhealthy,
}

/// The answer to a health check.
#[derive(Debug)]
pub struct HealthCheckResult {
    pub status: HealthStatus,
    pub uptime_ms: Option<u64>,
    pub memory_usage_bytes: Option<u64>,
    pub last_error: Option<String>,
}

/// The events that a backend emits, and what it supports.
#[derive(Debug)]
pub struct TriggerSchema {
    pub kinds: Vec<String>,
    pub supports_resume: bool,
    pub supports_dedup: bool,
    pub supports_ack: bool,
}

/// What a plugin can do.
#[derive(Debug)]
pub struct PluginCapabilities {
    pub methods: Vec<String>,
    pub streaming: bool,
    pub progress: bool,
    pub cancellation: bool,
    pub subject_kinds: Vec<String>,
    pub mcp_tools: Vec<String>,
}

/// What a plugin says of itself.
#[derive(Debug)]
pub struct PluginInfo {
    pub name: String,
    pub version: String,
    pub plugin_kind: String,
    pub description: Option<String>,
}

/// What a plugin's own description says.
pub struct PluginInfoView {
    pub name: Seq<char>,
    pub version: Seq<char>,
    pub plugin_kind: Seq<char>,
    pub description: Option<Seq<char>>,
}

impl View for PluginInfo {
    type V = PluginInfoView;

    open spec fn view(&self) -> PluginInfoView {
        PluginInfoView {
            name: self.name@,
            version: self.version@,
            plugin_kind: self.plugin_kind@,
            description: self.description.deep_view(),
        }
    }
}

impl Clone for PluginInfo {
    fn clone(&self) -> (r: PluginInfo)
        ensures
            r@ == self@,
    {
        PluginInfo {
            name: self.name.clone(),
            version: self.version.clone(),
            plugin_kind: self.plugin_kind.clone(),
            description: self.description.clone(),
        }
    }
}

/// The result of `initialize`.
#[derive(Debug)]
pub struct InitializeResult {
    pub protocol_version: String,
    pub plugin_info: PluginInfo,
    pub capabilities: PluginCapabilities,
}

/// The parameters of `trigger/ack`.
#[derive(Debug)]
pub struct TriggerAckParams {
    pub event_id: String,
}

/// The views of requests' parts, responses, errors and plugin descriptions leave
/// nothing out.
pub proof fn law_views(
    json: Option<Json>,
    error: RpcError,
    response: RpcResponse,
    info: PluginInfo,
)
    ensures
        json is None ==> optional(json) is None,
        json matches Some(value) ==> optional(json) == Some(value@),
        error@.code == error.code,
        error@.message == error.message@,
        error@.data == optional(error.data),
        response@.id == optional(response.id),
        response.outcome matches Ok(value) ==> response@.outcome == OutcomeView::Done(value@),
        response.outcome matches Err(failure) ==> response@.outcome == OutcomeView::Failed(failure@),
        info@.name == info.name@,
        info@.version == info.version@,
        info@.plugin_kind == info.plugin_kind@,
        info@.description == info.description.deep_view(),
{
}

/// The JSON-RPC error codes and the method names of the trigger protocol.
pub proof fn law_protocol_names()
    ensures
        METHOD_NOT_FOUND == -32601,
        INVALID_PARAMS == -32602,
        INTERNAL_ERROR == -32603,
        METHOD_TRIGGER_WATCH@ == "trigger/watch"@,
        METHOD_TRIGGER_SCHEMA@ == "trigger/schema"@,
        METHOD_TRIGGER_ACK@ == "trigger/ack"@,
        NOTIFICATION_TRIGGER_EVENT@ == "trigger/event"@,
        PLUGIN_KIND_TRIGGER_BACKEND@ == "trigger_backend"@,
{
}

} // verus!
