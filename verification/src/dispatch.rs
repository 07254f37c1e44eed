//! JSON-RPC dispatch with outbound Slack methods.
//!
//! Lifecycle methods (`initialize`, `initialized`, `$/ping`, `health/check`,
//! `shutdown`), `trigger/schema`, `trigger/watch`, `trigger/ack` and
//! `trigger/event` notifications, and three outbound methods
//! (`slack/chat_post_message`, `slack/chat_post_ephemeral`, `slack/send_dm`).
//!
//! [`begin_request`] says what a request needs. Where that is work outside the
//! library (encoding a value, decoding parameters, a POST to Slack), the
//! functions below take its result and go on.

use crate::backend::{is_health_of, is_slack_schema, is_watch_of, SlackBackend};
use crate::config::{non_empty, SlackConfig};
use crate::json::{
    members_view, no_members, parsed_json, put, Json, JsonView, Member, Parsed,
};
use crate::protocol::{
    copy_optional, optional, BackendError, HealthCheckResult, InitializeResult, OutcomeView,
    PluginCapabilities, PluginInfo, PluginInfoView, RpcError, RpcErrorView, RpcNotification,
    RpcRequest, RpcResponse, RpcResponseView, TriggerAckParams, TriggerSchema, INTERNAL_ERROR,
    INVALID_PARAMS, METHOD_NOT_FOUND, METHOD_TRIGGER_ACK, METHOD_TRIGGER_SCHEMA,
    METHOD_TRIGGER_WATCH, NOTIFICATION_TRIGGER_EVENT,
};
use crate::text::{
    cut_at, decimal, decimal_text, law_trimmed, lemma_cut_at, same_text, starts_with, trim, trimmed,
    trimmed_end, trimmed_start,
};
use crate::web_api::{
    answered, dm_message_request, dm_opening, dm_request, ephemeral_request, is_blank, law_dm,
    message_request,
    opened_channel, pending_dm, prepared, reply_of, unread_of, unread_reply, with_optional,
    ApiRequest, ApiRequestView, ChatPostEphemeralParams, ChatPostMessageParams, DmView, PendingDm,
    SendDmParams, SlackApiError, SlackApiErrorView, SlackWebClient, SlackWebClientView,
};
use vstd::prelude::*;
use vstd::string::*;

verus! {

/// `slack/chat_post_message`: wraps Slack's `chat.postMessage`.
pub const METHOD_SLACK_CHAT_POST_MESSAGE: &'static str = "slack/chat_post_message";

/// `slack/chat_post_ephemeral`: wraps Slack's `chat.postEphemeral`.
pub const METHOD_SLACK_CHAT_POST_EPHEMERAL: &'static str = "slack/chat_post_ephemeral";

/// `slack/send_dm`: opens an IM channel with the user, then posts a message.
pub const METHOD_SLACK_SEND_DM: &'static str = "slack/send_dm";

/// The methods that are advertised.
pub open spec fn advertised_methods(supports_ack: bool) -> Seq<Seq<char>> {
    let always = seq![
        METHOD_TRIGGER_WATCH@,
        METHOD_TRIGGER_SCHEMA@,
        "health/check"@,
        METHOD_SLACK_CHAT_POST_MESSAGE@,
        METHOD_SLACK_CHAT_POST_EPHEMERAL@,
        METHOD_SLACK_SEND_DM@,
    ];
    if supports_ack {
        always.push(METHOD_TRIGGER_ACK@)
    } else {
        always
    }
}

/// Whether these are the capabilities of a backend that supports acks, or does
/// not.
pub open spec fn is_capabilities_of(capabilities: PluginCapabilities, supports_ack: bool) -> bool {
    &&& capabilities.methods.deep_view() == advertised_methods(supports_ack)
    &&& capabilities.streaming
    &&& !capabilities.progress
    &&& !capabilities.cancellation
    &&& capabilities.subject_kinds@.len() == 0
    &&& capabilities.mcp_tools@.len() == 0
}

/// Capabilities advertised in the `initialize` response.
///
/// Includes the trigger methods plus the three outbound `slack/*` methods, so
/// that hosts can detect support without trial-calling.
pub fn compute_capabilities(schema: &TriggerSchema) -> (r: PluginCapabilities)
    ensures
        is_capabilities_of(r, schema.supports_ack),
{
    let mut methods: Vec<String> = Vec::new();
    methods.push(METHOD_TRIGGER_WATCH.to_string());
    methods.push(METHOD_TRIGGER_SCHEMA.to_string());
    methods.push("health/check".to_string());
    methods.push(METHOD_SLACK_CHAT_POST_MESSAGE.to_string());
    methods.push(METHOD_SLACK_CHAT_POST_EPHEMERAL.to_string());
    methods.push(METHOD_SLACK_SEND_DM.to_string());
    if schema.supports_ack {
        methods.push(METHOD_TRIGGER_ACK.to_string());
    }
    assert(methods.deep_view() =~= advertised_methods(schema.supports_ack));
    PluginCapabilities {
        methods,
        streaming: true,
        progress: false,
        cancellation: false,
        subject_kinds: Vec::new(),
        mcp_tools: Vec::new(),
    }
}

/// What a method asks for.
#[derive(Debug, Clone, Copy, PartialEq, Eq, Structural)]
pub enum Route {
    Initialize,
    Initialized,
    Ping,
    HealthCheck,
    Shutdown,
    Schema,
    Watch,
    Ack,
    PostMessage,
    PostEphemeral,
    SendDm,
    /// A `$/` notification that nobody needs to answer.
    Notification,
    Unknown,
}

/// What a method asks for.
pub open spec fn route_of(method: Seq<char>) -> Route {
    if method == "initialize"@ {
        Route::Initialize
    } else if method == "initialized"@ {
        Route::Initialized
    } else if method == "$/ping"@ {
        Route::Ping
    } else if method == "health/check"@ {
        Route::HealthCheck
    } else if method == "shutdown"@ {
        Route::Shutdown
    } else if method == METHOD_TRIGGER_SCHEMA@ {
        Route::Schema
    } else if method == METHOD_TRIGGER_WATCH@ {
        Route::Watch
    } else if method == METHOD_TRIGGER_ACK@ {
        Route::Ack
    } else if method == METHOD_SLACK_CHAT_POST_MESSAGE@ {
        Route::PostMessage
    } else if method == METHOD_SLACK_CHAT_POST_EPHEMERAL@ {
        Route::PostEphemeral
    } else if method == METHOD_SLACK_SEND_DM@ {
        Route::SendDm
    } else if "$/"@.is_prefix_of(method) {
        Route::Notification
    } else {
        Route::Unknown
    }
}

/// What a method asks for.
pub fn route(method: &str) -> (r: Route)
    ensures
        r == route_of(method@),
{
    if same_text(method, "initialize") {
        Route::Initialize
    } else if same_text(method, "initialized") {
        Route::Initialized
    } else if same_text(method, "$/ping") {
        Route::Ping
    } else if same_text(method, "health/check") {
        Route::HealthCheck
    } else if same_text(method, "shutdown") {
        Route::Shutdown
    } else if same_text(method, METHOD_TRIGGER_SCHEMA) {
        Route::Schema
    } else if same_text(method, METHOD_TRIGGER_WATCH) {
        Route::Watch
    } else if same_text(method, METHOD_TRIGGER_ACK) {
        Route::Ack
    } else if same_text(method, METHOD_SLACK_CHAT_POST_MESSAGE) {
        Route::PostMessage
    } else if same_text(method, METHOD_SLACK_CHAT_POST_EPHEMERAL) {
        Route::PostEphemeral
    } else if same_text(method, METHOD_SLACK_SEND_DM) {
        Route::SendDm
    } else if starts_with(method, "$/") {
        Route::Notification
    } else {
        Route::Unknown
    }
}

/// A response with a result.
pub open spec fn done(id: Option<JsonView>, result: JsonView) -> RpcResponseView {
    RpcResponseView { id, outcome: OutcomeView::Done(result) }
}

/// A response with an error.
pub open spec fn failed(id: Option<JsonView>, error: RpcErrorView) -> RpcResponseView {
    RpcResponseView { id, outcome: OutcomeView::Failed(error) }
}

/// The error for a method that is not there.
pub open spec fn unknown_method(plugin_name: Seq<char>, method: Seq<char>) -> RpcErrorView {
    RpcErrorView {
        code: METHOD_NOT_FOUND,
        message: "method '"@ + method + "' not implemented by "@ + plugin_name,
        data: None,
    }
}

/// The error for parameters that are not there.
pub open spec fn missing_params() -> RpcErrorView {
    RpcErrorView { code: INVALID_PARAMS, message: "missing params"@, data: None }
}

/// The error for parameters that do not decode.
pub open spec fn invalid_params(reason: Seq<char>) -> RpcErrorView {
    RpcErrorView { code: INVALID_PARAMS, message: "invalid params: "@ + reason, data: None }
}

/// The error for a result that does not encode.
pub open spec fn unencodable(method: Seq<char>, reason: Seq<char>) -> RpcErrorView {
    RpcErrorView {
        code: INTERNAL_ERROR,
        message: "failed to encode "@ + method + " result: "@ + reason,
        data: None,
    }
}

/// The response for a method that is not there.
pub fn method_not_found(id: Option<Json>, plugin_name: &str, method: &str) -> (r: RpcResponse)
    ensures
        r@ == failed(optional(id), unknown_method(plugin_name@, method@)),
{
    let mut message: String = "method '".to_string();
    message.append(method);
    message.append("' not implemented by ");
    message.append(plugin_name);
    RpcResponse::err(id, RpcError { code: METHOD_NOT_FOUND, message, data: None })
}

/// The error for a result that does not encode.
pub fn encoding_error(method: &str, reason: &str) -> (r: RpcError)
    ensures
        r@ == unencodable(method@, reason@),
{
    let mut message: String = "failed to encode ".to_string();
    message.append(method);
    message.append(" result: ");
    message.append(reason);
    RpcError { code: INTERNAL_ERROR, message, data: None }
}

/// The parameters to decode: those of the request, or an empty object where
/// none are needed.
pub fn required_params(params: Option<Json>, allow_missing: bool) -> (r: Result<Json, RpcError>)
    ensures
        match (params, r) {
            (Some(given), Ok(taken)) => taken@ == given@,
            (None, Ok(taken)) => allow_missing && taken@ == JsonView::Object(no_members()),
            (None, Err(error)) => !allow_missing && error@ == missing_params(),
            (Some(_), Err(_)) => false,
        },
{
    match params {
        Some(given) => Ok(given),
        None => if allow_missing {
            Ok(Json::empty_object())
        } else {
            Err(
                RpcError {
                    code: INVALID_PARAMS,
                    message: "missing params".to_string(),
                    data: None,
                },
            )
        },
    }
}

/// The error for parameters that do not decode.
pub fn undecodable(reason: &str) -> (r: RpcError)
    ensures
        r@ == invalid_params(reason@),
{
    RpcError {
        code: INVALID_PARAMS,
        message: "invalid params: ".to_string().concat(reason),
        data: None,
    }
}

/// What a request needs next.
#[derive(Debug)]
pub enum Step {
    /// Write this response.
    Reply(RpcResponse),
    /// Write nothing.
    Silent,
    /// Encode the initialize result, for [`initialize_response`].
    Initialize { id: Option<Json>, result: InitializeResult },
    /// Encode the health check's result, for [`health_response`].
    Health { id: Option<Json>, health: Result<HealthCheckResult, BackendError> },
    /// Encode the schema, for [`schema_response`].
    Schema { id: Option<Json>, schema: TriggerSchema },
    /// Start the event stream with this configuration, or say why not, for
    /// [`watch_response`].
    Watch { id: Option<Json>, watch: Result<SlackConfig, BackendError> },
    /// Decode the parameters, for [`ack_response`].
    Ack { id: Option<Json>, params: Json },
    /// Decode the parameters, for [`start_message`].
    PostMessage { id: Option<Json>, params: Json },
    /// Decode the parameters, for [`start_ephemeral`].
    PostEphemeral { id: Option<Json>, params: Json },
    /// Decode the parameters, for [`start_dm`].
    SendDm { id: Option<Json>, params: Json },
}

/// Whether a method that takes parameters goes on with those of the request,
/// or is answered that they are missing.
pub open spec fn takes_params(
    request: RpcRequest,
    step: Step,
    taken: Option<(Option<Json>, Json)>,
) -> bool {
    match request.params {
        Some(params) => taken matches Some((id, given)) && optional(id) == optional(request.id)
            && given@ == params@,
        None => step matches Step::Reply(response) && response@ == failed(
            optional(request.id),
            missing_params(),
        ),
    }
}

/// Whether this is the result of `initialize` for the plugin.
pub open spec fn is_initialize_result(
    result: InitializeResult,
    info: PluginInfoView,
    protocol_version: Seq<char>,
) -> bool {
    &&& result.protocol_version@ == protocol_version
    &&& result.plugin_info@ == info
    &&& is_capabilities_of(result.capabilities, true)
}

/// Whether `step` is what `request` needs next.
pub open spec fn is_step_of(
    step: Step,
    request: RpcRequest,
    info: PluginInfoView,
    protocol_version: Seq<char>,
    backend: SlackBackend,
) -> bool {
    let id = optional(request.id);
    let config = backend.spec_config()@;
    match route_of(request.method@) {
        Route::Initialize => step matches Step::Initialize { id: kept, result } && optional(kept)
            == id && is_initialize_result(result, info, protocol_version),
        Route::Initialized => step is Silent,
        Route::Notification => step is Silent,
        Route::Ping => step matches Step::Reply(response) && response@ == done(
            id,
            JsonView::Object(no_members()),
        ),
        Route::Shutdown => step matches Step::Reply(response) && response@ == done(
            id,
            JsonView::Object(no_members()),
        ),
        Route::HealthCheck => step matches Step::Health { id: kept, health } && optional(kept) == id
            && (health matches Ok(result) && is_health_of(result, config)),
        Route::Schema => step matches Step::Schema { id: kept, schema } && optional(kept) == id
            && is_slack_schema(schema),
        Route::Watch => step matches Step::Watch { id: kept, watch } && optional(kept) == id
            && is_watch_of(watch, config, backend.spec_watching()),
        Route::Ack => takes_params(
            request,
            step,
            match step {
                Step::Ack { id, params } => Some((id, params)),
                _ => None,
            },
        ),
        Route::PostMessage => takes_params(
            request,
            step,
            match step {
                Step::PostMessage { id, params } => Some((id, params)),
                _ => None,
            },
        ),
        Route::PostEphemeral => takes_params(
            request,
            step,
            match step {
                Step::PostEphemeral { id, params } => Some((id, params)),
                _ => None,
            },
        ),
        Route::SendDm => takes_params(
            request,
            step,
            match step {
                Step::SendDm { id, params } => Some((id, params)),
                _ => None,
            },
        ),
        Route::Unknown => step matches Step::Reply(response) && response@ == failed(
            id,
            unknown_method(info.name, request.method@),
        ),
    }
}

/// Whether a step hands out the event stream.
pub open spec fn hands_out(step: Step) -> bool {
    step matches Step::Watch { watch, .. } && watch is Ok
}

/// What a request needs next.
pub fn begin_request(
    request: RpcRequest,
    info: &PluginInfo,
    protocol_version: &str,
    backend: &mut SlackBackend,
) -> (r: Step)
    ensures
        is_step_of(r, request, info@, protocol_version@, *old(backend)),
        final(backend).spec_config() == old(backend).spec_config(),
        final(backend).spec_watching() == (old(backend).spec_watching() || hands_out(r)),
{
    let asked: Route = route(request.method.as_str());
    let id: Option<Json> = request.id;
    match asked {
        Route::Initialize => {
            let schema: TriggerSchema = backend.schema();
            let result: InitializeResult = InitializeResult {
                protocol_version: protocol_version.to_string(),
                plugin_info: info.clone(),
                capabilities: compute_capabilities(&schema),
            };
            Step::Initialize { id, result }
        },
        Route::Initialized => Step::Silent,
        Route::Notification => Step::Silent,
        Route::Ping => Step::Reply(RpcResponse::ok(id, Json::empty_object())),
        Route::Shutdown => Step::Reply(RpcResponse::ok(id, Json::empty_object())),
        Route::HealthCheck => Step::Health { id, health: backend.health() },
        Route::Schema => Step::Schema { id, schema: backend.schema() },
        Route::Watch => Step::Watch { id, watch: backend.watch() },
        Route::Ack => match required_params(request.params, false) {
            Ok(params) => Step::Ack { id, params },
            Err(error) => Step::Reply(RpcResponse::err(id, error)),
        },
        Route::PostMessage => match required_params(request.params, false) {
            Ok(params) => Step::PostMessage { id, params },
            Err(error) => Step::Reply(RpcResponse::err(id, error)),
        },
        Route::PostEphemeral => match required_params(request.params, false) {
            Ok(params) => Step::PostEphemeral { id, params },
            Err(error) => Step::Reply(RpcResponse::err(id, error)),
        },
        Route::SendDm => match required_params(request.params, false) {
            Ok(params) => Step::SendDm { id, params },
            Err(error) => Step::Reply(RpcResponse::err(id, error)),
        },
        Route::Unknown => Step::Reply(
            method_not_found(id, info.name.as_str(), request.method.as_str()),
        ),
    }
}

/// The response that a result's encoding gives.
pub open spec fn encoded(
    id: Option<JsonView>,
    method: Seq<char>,
    encoding: Result<Json, String>,
) -> RpcResponseView {
    match encoding {
        Ok(value) => done(id, value@),
        Err(reason) => failed(id, unencodable(method, reason@)),
    }
}

fn encoded_response(id: Option<Json>, method: &str, encoding: Result<Json, String>) -> (r:
    RpcResponse)
    ensures
        r@ == encoded(optional(id), method@, encoding),
{
    match encoding {
        Ok(value) => RpcResponse::ok(id, value),
        Err(reason) => RpcResponse::err(id, encoding_error(method, reason.as_str())),
    }
}

/// The response to `initialize`, by the encoding of the initialize result.
pub fn initialize_response(id: Option<Json>, encoding: Result<Json, String>) -> (r: RpcResponse)
    ensures
        r@ == encoded(optional(id), "initialize"@, encoding),
{
    encoded_response(id, "initialize", encoding)
}

/// The response to `trigger/schema`, by the encoding of the schema.
pub fn schema_response(id: Option<Json>, encoding: Result<Json, String>) -> (r: RpcResponse)
    ensures
        r@ == encoded(optional(id), METHOD_TRIGGER_SCHEMA@, encoding),
{
    encoded_response(id, METHOD_TRIGGER_SCHEMA, encoding)
}

/// How a health check ended.
#[derive(Debug)]
pub enum HealthOutcome {
    /// It gave a result, which encodes to this, or does not.
    Checked(Result<Json, String>),
    /// It failed, with this message. `unhealthy` is how the status is written.
    Failed { message: String, unhealthy: Json },
}

/// The response to `health/check`, by how the check ended.
pub open spec fn health_reply(id: Option<JsonView>, outcome: HealthOutcome) -> RpcResponseView {
    match outcome {
        HealthOutcome::Checked(encoding) => encoded(id, "health/check"@, encoding),
        HealthOutcome::Failed { message, unhealthy } => failed(
            id,
            RpcErrorView {
                code: INTERNAL_ERROR,
                message: "health/check failed: "@ + message@,
                data: Some(JsonView::Object(no_members().insert("status"@, unhealthy@))),
            },
        ),
    }
}

/// The response to `health/check`.
pub fn health_response(id: Option<Json>, outcome: HealthOutcome) -> (r: RpcResponse)
    ensures
        r@ == health_reply(optional(id), outcome),
{
    match outcome {
        HealthOutcome::Checked(encoding) => encoded_response(id, "health/check", encoding),
        HealthOutcome::Failed { message, unhealthy } => {
            let mut data: Vec<Member> = Vec::new();
            put(&mut data, "status", unhealthy);
            RpcResponse::err(
                id,
                RpcError {
                    code: INTERNAL_ERROR,
                    message: "health/check failed: ".to_string().concat(message.as_str()),
                    data: Some(Json::Object(data)),
                },
            )
        },
    }
}

/// The response to `trigger/watch`, by whether the stream has started.
pub open spec fn watch_reply(
    id: Option<JsonView>,
    started: Result<(), RpcError>,
) -> RpcResponseView {
    match started {
        Ok(()) => done(
            id,
            JsonView::Object(no_members().insert("watching"@, JsonView::Bool(true))),
        ),
        Err(error) => failed(id, error@),
    }
}

/// The response to `trigger/watch`, once the stream has started or not.
pub fn watch_response(id: Option<Json>, started: Result<(), RpcError>) -> (r: RpcResponse)
    ensures
        r@ == watch_reply(optional(id), started),
{
    match started {
        Ok(()) => {
            let mut result: Vec<Member> = Vec::new();
            put(&mut result, "watching", Json::Bool(true));
            RpcResponse::ok(id, Json::Object(result))
        },
        Err(error) => RpcResponse::err(id, error),
    }
}

/// The result of `trigger/ack`.
pub open spec fn acked(event_id: Seq<char>) -> JsonView {
    JsonView::Object(
        no_members().insert("event_id"@, JsonView::Text(event_id)).insert(
            "acked"@,
            JsonView::Bool(true),
        ),
    )
}

/// The response to `trigger/ack`, by its parameters and how the backend took it.
pub open spec fn ack_reply(
    id: Option<JsonView>,
    decoded: Result<TriggerAckParams, String>,
    taken: Result<(), RpcError>,
) -> RpcResponseView {
    match decoded {
        Ok(params) => match taken {
            Ok(()) => done(id, acked(params.event_id@)),
            Err(error) => failed(id, error@),
        },
        Err(reason) => failed(id, invalid_params(reason@)),
    }
}

/// The response to `trigger/ack`: by its parameters, where they decode, and by
/// how the backend took the ack.
pub fn ack_response(
    id: Option<Json>,
    decoded: Result<TriggerAckParams, String>,
    taken: Result<(), RpcError>,
) -> (r: RpcResponse)
    ensures
        r@ == ack_reply(optional(id), decoded, taken),
{
    match decoded {
        Ok(params) => match taken {
            Ok(()) => {
                let mut result: Vec<Member> = Vec::new();
                put(&mut result, "event_id", Json::Text(params.event_id));
                put(&mut result, "acked", Json::Bool(true));
                RpcResponse::ok(id, Json::Object(result))
            },
            Err(error) => RpcResponse::err(id, error),
        },
        Err(reason) => RpcResponse::err(id, undecodable(reason.as_str())),
    }
}

/// The category of a failure, by which a workflow can branch on it.
pub open spec fn category(error: SlackApiErrorView) -> Seq<char> {
    match error {
        SlackApiErrorView::InvalidRequest(_) => "invalid_request"@,
        SlackApiErrorView::MissingBotToken => "missing_token"@,
        SlackApiErrorView::Slack { code, body } => "slack_error"@,
        SlackApiErrorView::Http { status, body } => "http"@,
        SlackApiErrorView::Transport(_) => "transport"@,
        SlackApiErrorView::Decode(_) => "decode"@,
    }
}

/// What a failure's data say, next to its category.
pub open spec fn failure_data(error: SlackApiErrorView) -> JsonView {
    let named = no_members().insert("category"@, JsonView::Text(category(error)));
    JsonView::Object(
        match error {
            SlackApiErrorView::Slack { code, body } => named.insert(
                "slack_error"@,
                JsonView::Text(code),
            ).insert("body"@, body),
            SlackApiErrorView::Http { status, body } => named.insert(
                "status"@,
                JsonView::Number(decimal(status as nat)),
            ).insert("body"@, JsonView::Text(body)),
            _ => named,
        },
    )
}

/// The words for a failure. The body of an answer is left to the data.
pub open spec fn failure_message(error: SlackApiErrorView) -> Seq<char> {
    match error {
        SlackApiErrorView::InvalidRequest(message) => message,
        SlackApiErrorView::MissingBotToken => "SLACK_BOT_TOKEN unset"@,
        SlackApiErrorView::Slack { code, body } => "slack api error: "@ + code,
        SlackApiErrorView::Http { status, body } => "slack http "@ + decimal(status as nat),
        SlackApiErrorView::Transport(message) => "slack transport: "@ + message,
        SlackApiErrorView::Decode(message) => "slack decode: "@ + message,
    }
}

/// The JSON-RPC error for a failure.
pub open spec fn rpc_failure(error: SlackApiErrorView) -> RpcErrorView {
    RpcErrorView {
        code: if error is InvalidRequest {
            INVALID_PARAMS
        } else {
            INTERNAL_ERROR
        },
        message: failure_message(error),
        data: Some(failure_data(error)),
    }
}

fn named_data(name: &str) -> (r: Vec<Member>)
    ensures
        members_view(r@) == no_members().insert("category"@, JsonView::Text(name@)),
{
    let mut data: Vec<Member> = Vec::new();
    put(&mut data, "category", Json::from_text(name));
    data
}

/// Map a [`SlackApiError`] to a JSON-RPC error payload that preserves Slack's
/// error code for programmatic handling.
///
/// Workflow phases get a stable, structured shape:
///
/// - `category = "invalid_request"` for caller-side validation failures.
/// - `category = "slack_error"` for `ok=false` responses; the Slack error code
///   is in `data.slack_error` and the full body in `data.body`.
/// - `category = "http"` for non-2xx responses, with `data.status`.
/// - `category = "transport"` / `"decode"` / `"missing_token"` for the rest.
pub fn slack_error_to_rpc(error: SlackApiError) -> (r: RpcError)
    ensures
        r@ == rpc_failure(error@),
{
    match error {
        SlackApiError::InvalidRequest(message) => RpcError {
            code: INVALID_PARAMS,
            message,
            data: Some(Json::Object(named_data("invalid_request"))),
        },
        SlackApiError::MissingBotToken => RpcError {
            code: INTERNAL_ERROR,
            message: "SLACK_BOT_TOKEN unset".to_string(),
            data: Some(Json::Object(named_data("missing_token"))),
        },
        SlackApiError::Slack { code, body } => {
            let message: String = "slack api error: ".to_string().concat(code.as_str());
            let mut data: Vec<Member> = named_data("slack_error");
            put(&mut data, "slack_error", Json::Text(code));
            put(&mut data, "body", body);
            RpcError { code: INTERNAL_ERROR, message, data: Some(Json::Object(data)) }
        },
        SlackApiError::Http { status, body } => {
            let message: String = "slack http ".to_string().concat(
                decimal_text(status as u64).as_str(),
            );
            let mut data: Vec<Member> = named_data("http");
            put(&mut data, "status", Json::from_u16(status));
            put(&mut data, "body", Json::Text(body));
            RpcError { code: INTERNAL_ERROR, message, data: Some(Json::Object(data)) }
        },
        SlackApiError::Transport(message) => RpcError {
            code: INTERNAL_ERROR,
            message: "slack transport: ".to_string().concat(message.as_str()),
            data: Some(Json::Object(named_data("transport"))),
        },
        SlackApiError::Decode(message) => RpcError {
            code: INTERNAL_ERROR,
            message: "slack decode: ".to_string().concat(message.as_str()),
            data: Some(Json::Object(named_data("decode"))),
        },
    }
}

/// The response to an outbound method, by Slack's answer.
pub open spec fn slack_outcome(
    id: Option<JsonView>,
    answer: Result<JsonView, SlackApiErrorView>,
) -> RpcResponseView {
    match answer {
        Ok(value) => done(id, value),
        Err(error) => failed(id, rpc_failure(error)),
    }
}

/// The response to an outbound method, by Slack's answer.
pub fn slack_response(id: Option<Json>, answer: Result<Json, SlackApiError>) -> (r: RpcResponse)
    ensures
        r@ == slack_outcome(optional(id), answered(answer)),
{
    match answer {
        Ok(value) => RpcResponse::ok(id, value),
        Err(error) => RpcResponse::err(id, slack_error_to_rpc(error)),
    }
}

/// What becomes of the answer to a request.
#[derive(Debug)]
pub enum Next {
    /// It is the answer of the method.
    Finish,
    /// It names the channel in which this message is posted.
    PostDm(PendingDm),
}

/// What an outbound method needs next.
#[derive(Debug)]
pub enum SlackStep {
    /// Write this response.
    Reply(RpcResponse),
    /// Send this request, and hand its answer to [`resume`].
    Post { id: Option<Json>, request: ApiRequest, next: Next },
}

/// Whether `step` sends the request that was prepared and finishes with its
/// answer, or replies why there is none.
pub open spec fn posts_last(
    step: SlackStep,
    id: Option<JsonView>,
    request: Result<ApiRequestView, SlackApiErrorView>,
) -> bool {
    match (step, request) {
        (SlackStep::Post { id: kept, request: sent, next }, Ok(expected)) => {
            &&& optional(kept) == id
            &&& sent@ == expected
            &&& next is Finish
        },
        (SlackStep::Reply(response), Err(error)) => response@ == failed(id, rpc_failure(error)),
        _ => false,
    }
}

fn post_last(id: Option<Json>, request: Result<ApiRequest, SlackApiError>) -> (r: SlackStep)
    ensures
        posts_last(r, optional(id), prepared(request)),
{
    match request {
        Ok(request) => SlackStep::Post { id, request, next: Next::Finish },
        Err(error) => SlackStep::Reply(RpcResponse::err(id, slack_error_to_rpc(error))),
    }
}

fn reject_params(id: Option<Json>, reason: &str) -> (r: SlackStep)
    ensures
        r matches SlackStep::Reply(response) && response@ == failed(
            optional(id),
            invalid_params(reason@),
        ),
{
    SlackStep::Reply(RpcResponse::err(id, undecodable(reason)))
}

/// Whether `step` replies that the parameters do not decode.
pub open spec fn rejects_params(step: SlackStep, id: Option<JsonView>, reason: Seq<char>) -> bool {
    step matches SlackStep::Reply(response) && response@ == failed(id, invalid_params(reason))
}

/// `slack/chat_post_message`, once its parameters are decoded or not.
pub fn start_message(
    web: &SlackWebClient,
    id: Option<Json>,
    decoded: Result<ChatPostMessageParams, String>,
) -> (r: SlackStep)
    ensures
        match decoded {
            Ok(params) => posts_last(r, optional(id), message_request(web@, params@)),
            Err(reason) => rejects_params(r, optional(id), reason@),
        },
{
    match decoded {
        Ok(params) => post_last(id, web.chat_post_message(params)),
        Err(reason) => reject_params(id, reason.as_str()),
    }
}

/// `slack/chat_post_ephemeral`, once its parameters are decoded or not.
pub fn start_ephemeral(
    web: &SlackWebClient,
    id: Option<Json>,
    decoded: Result<ChatPostEphemeralParams, String>,
) -> (r: SlackStep)
    ensures
        match decoded {
            Ok(params) => posts_last(r, optional(id), ephemeral_request(web@, params@)),
            Err(reason) => rejects_params(r, optional(id), reason@),
        },
{
    match decoded {
        Ok(params) => post_last(id, web.chat_post_ephemeral(params)),
        Err(reason) => reject_params(id, reason.as_str()),
    }
}

/// Whether `step` asks for the channel of a direct message and keeps the
/// message for it, or replies why not.
pub open spec fn opens_dm(
    step: SlackStep,
    id: Option<JsonView>,
    client: SlackWebClientView,
    params: DmView,
) -> bool {
    match (step, dm_request(client, params)) {
        (SlackStep::Post { id: kept, request, next }, Ok(expected)) => {
            &&& optional(kept) == id
            &&& request@ == expected
            &&& next matches Next::PostDm(pending)
            &&& pending@ == pending_dm(params)
        },
        (SlackStep::Reply(response), Err(error)) => response@ == failed(id, rpc_failure(error)),
        _ => false,
    }
}

/// `slack/send_dm`, once its parameters are decoded or not.
pub fn start_dm(
    web: &SlackWebClient,
    id: Option<Json>,
    decoded: Result<SendDmParams, String>,
) -> (r: SlackStep)
    ensures
        match decoded {
            Ok(params) => opens_dm(r, optional(id), web@, params@),
            Err(reason) => rejects_params(r, optional(id), reason@),
        },
{
    match decoded {
        Ok(params) => match web.send_dm(params) {
            Ok((request, pending)) => SlackStep::Post { id, request, next: Next::PostDm(pending) },
            Err(error) => SlackStep::Reply(RpcResponse::err(id, slack_error_to_rpc(error))),
        },
        Err(reason) => reject_params(id, reason.as_str()),
    }
}

/// Whether `step` is what follows Slack's answer.
pub open spec fn follows(
    step: SlackStep,
    id: Option<JsonView>,
    client: SlackWebClientView,
    next: Next,
    answer: Result<JsonView, SlackApiErrorView>,
) -> bool {
    match (next, answer) {
        (Next::PostDm(pending), Ok(opened)) => posts_last(
            step,
            id,
            dm_message_request(client, opened, pending@),
        ),
        _ => step matches SlackStep::Reply(response) && response@ == slack_outcome(id, answer),
    }
}

/// What follows Slack's answer: the response, or the message in the channel
/// that was opened for it.
pub fn resume_with(
    web: &SlackWebClient,
    id: Option<Json>,
    next: Next,
    answer: Result<Json, SlackApiError>,
) -> (r: SlackStep)
    ensures
        follows(r, optional(id), web@, next, answered(answer)),
{
    match next {
        Next::Finish => SlackStep::Reply(slack_response(id, answer)),
        Next::PostDm(pending) => match answer {
            Ok(opened) => post_last(id, web.finish_dm(pending, &opened)),
            Err(error) => SlackStep::Reply(slack_response(id, Err(error))),
        },
    }
}

/// The answer to a POST request.
#[derive(Debug)]
pub struct HttpReply {
    pub status: u16,
    /// The body, or why it could not be read.
    pub text: Result<String, String>,
}

/// What the answer to a POST request says, or that none came.
pub open spec fn reply_answer(reply: Result<HttpReply, String>) -> Result<
    JsonView,
    SlackApiErrorView,
> {
    match reply {
        Ok(http) => match http.text {
            Ok(text) => reply_of(http.status, text@, parsed_json(text@)),
            Err(reason) => Err(unread_of(http.status, reason@)),
        },
        Err(message) => Err(SlackApiErrorView::Transport(message@)),
    }
}

/// What follows the answer to a POST request, or the transport's failure.
pub fn resume(
    web: &SlackWebClient,
    id: Option<Json>,
    next: Next,
    reply: Result<HttpReply, String>,
) -> (r: SlackStep)
    ensures
        follows(r, optional(id), web@, next, reply_answer(reply)),
{
    let answer: Result<Json, SlackApiError> = match reply {
        Ok(http) => match http.text {
            Ok(text) => SlackWebClient::read_reply(http.status, text.as_str()),
            Err(reason) => Err(unread_reply(http.status, reason)),
        },
        Err(message) => Err(SlackApiError::Transport(message)),
    };
    resume_with(web, id, next, answer)
}

/// What the event stream yields.
#[derive(Debug)]
pub enum StreamItem {
    /// An event, which encodes to this, or does not.
    Event(Result<Json, String>),
    /// An error, which encodes to this, or does not.
    Failure(Result<Json, String>),
    /// The end of the stream.
    End,
}

/// What is to be done about an item of the event stream.
#[derive(Debug)]
pub enum StreamStep {
    /// Write the notification and go on.
    Notify(RpcNotification),
    /// Write the notification and stop.
    NotifyAndStop(RpcNotification),
    /// Go on.
    Skip,
    /// Stop.
    Stop,
}

/// The members of a notification: the id of the watch request, where it had
/// one, and the event or error.
pub open spec fn notification_params(
    request_id: Option<JsonView>,
    name: Seq<char>,
    value: JsonView,
) -> JsonView {
    JsonView::Object(with_optional(no_members(), "id"@, request_id).insert(name, value))
}

/// Whether this is the `trigger/event` notification with an event or error.
pub open spec fn is_notification(
    notification: RpcNotification,
    request_id: Option<JsonView>,
    name: Seq<char>,
    value: JsonView,
) -> bool {
    &&& notification.method@ == NOTIFICATION_TRIGGER_EVENT@
    &&& notification.params@ == notification_params(request_id, name, value)
}

fn notification(request_id: &Option<Json>, name: &str, value: Json) -> (r: RpcNotification)
    ensures
        is_notification(r, optional(*request_id), name@, value@),
{
    let mut params: Vec<Member> = Vec::new();
    if let Some(id) = copy_optional(request_id) {
        put(&mut params, "id", id);
    }
    put(&mut params, name, value);
    RpcNotification {
        method: NOTIFICATION_TRIGGER_EVENT.to_string(),
        params: Json::Object(params),
    }
}

/// What is to be done about an item of the event stream that a watch request
/// started. What does not encode is passed over; an error ends the stream.
pub fn on_stream_item(request_id: &Option<Json>, item: StreamItem) -> (r: StreamStep)
    ensures
        match item {
            StreamItem::Event(Ok(event)) => r matches StreamStep::Notify(notification)
                && is_notification(notification, optional(*request_id), "event"@, event@),
            StreamItem::Failure(Ok(error)) => r matches StreamStep::NotifyAndStop(notification)
                && is_notification(notification, optional(*request_id), "error"@, error@),
            StreamItem::Event(Err(_)) => r is Skip,
            StreamItem::Failure(Err(_)) => r is Skip,
            StreamItem::End => r is Stop,
        },
{
    match item {
        StreamItem::Event(Ok(event)) => StreamStep::Notify(
            notification(request_id, "event", event),
        ),
        StreamItem::Failure(Ok(error)) => StreamStep::NotifyAndStop(
            notification(request_id, "error", error),
        ),
        StreamItem::Event(Err(_)) => StreamStep::Skip,
        StreamItem::Failure(Err(_)) => StreamStep::Skip,
        StreamItem::End => StreamStep::Stop,
    }
}

/// The frame on a line of input, where the line is not blank.
pub fn frame_text(line: &str) -> (r: Option<&str>)
    ensures
        match r {
            Some(frame) => frame@ == trimmed(line@) && frame@.len() > 0,
            None => trimmed(line@).len() == 0,
        },
{
    let frame: &str = trim(line);
    if frame.is_empty() {
        None
    } else {
        Some(frame)
    }
}

/// What becomes of what was read from the input.
#[derive(Debug)]
pub enum Input {
    /// The line holds this request.
    Serve(RpcRequest),
    /// The line is passed over.
    Skip,
    /// The input has ended.
    End,
}

/// Whether a line holds a request, by what its frame decodes to.
pub open spec fn holds_request(line: Seq<char>, decoded: Option<RpcRequest>) -> bool {
    trimmed(line).len() > 0 && decoded is Some
}

/// Whether this is what becomes of a line, or of the end of the input where
/// there is none.
pub open spec fn is_input_of(
    input: Input,
    line: Option<Seq<char>>,
    decoded: Option<RpcRequest>,
) -> bool {
    match line {
        Some(line) => if holds_request(line, decoded) {
            input == Input::Serve(decoded->0)
        } else {
            input is Skip
        },
        None => input is End,
    }
}

/// What becomes of a line of input, or of its end, by what the frame on the
/// line decodes to: blank lines and those that hold no request are passed over.
pub fn read_frame(line: Option<&str>, decoded: Option<RpcRequest>) -> (r: Input)
    ensures
        is_input_of(
            r,
            match line {
                Some(line) => Some(line@),
                None => None,
            },
            decoded,
        ),
        line is None ==> r is End,
        line matches Some(given) ==> (trimmed(given@).len() > 0 ==> (decoded matches Some(request)
            ==> r == Input::Serve(request))),
        line matches Some(given) ==> (trimmed(given@).len() == 0 || decoded is None ==> r is Skip),
{
    match line {
        Some(line) => match (frame_text(line), decoded) {
            (Some(_), Some(request)) => Input::Serve(request),
            _ => Input::Skip,
        },
        None => Input::End,
    }
}

/// Whether `s` is a single line: its last character is a line feed, and no other
/// is.
pub open spec fn is_line(s: Seq<char>) -> bool {
    &&& s.len() > 0
    &&& s.last() == '\n'
    &&& !s.drop_last().contains('\n')
}

/// The line of output for a frame. A frame without line feeds, such as
/// [`Json::encode`] writes, is a single line.
pub fn write_frame(frame: String) -> (r: String)
    ensures
        r@ == frame@.push('\n'),
        !frame@.contains('\n') ==> is_line(r@),
{
    proof {
        reveal_strlit("\n");
    }
    let line: String = frame.concat("\n");
    assert(line@ =~= frame@.push('\n'));
    assert(line@.drop_last() =~= frame@);
    line
}

/// What a plugin says where it is run from a terminal.
pub fn terminal_refusal(plugin_name: &str) -> (r: String)
    ensures
        r@ == plugin_name@
            + " is a STDIO plugin; pipe JSON-RPC on stdin or pass --manifest"@,
{
    plugin_name.to_string().concat(
        " is a STDIO plugin; pipe JSON-RPC on stdin or pass --manifest",
    )
}

proof fn lemma_method_names()
    ensures
        forall|i: int|
            0 <= i < advertised_methods(true).len() ==> {
                let route = route_of(#[trigger] advertised_methods(true)[i]);
                route != Route::Unknown && route != Route::Notification && route
                    != Route::Initialized
            },
{
    reveal_strlit("initialize");
    reveal_strlit("initialized");
    reveal_strlit("$/ping");
    reveal_strlit("health/check");
    reveal_strlit("shutdown");
    reveal_strlit("trigger/schema");
    reveal_strlit("trigger/watch");
    reveal_strlit("trigger/ack");
    reveal_strlit("slack/chat_post_message");
    reveal_strlit("slack/chat_post_ephemeral");
    reveal_strlit("slack/send_dm");
    assert("initialized"@[0] == 'i');
    assert("health/check"@[0] == 'h');
    assert(METHOD_TRIGGER_WATCH@[0] == 't');
    assert(METHOD_TRIGGER_SCHEMA@[0] == 't');
    assert(METHOD_TRIGGER_ACK@[0] == 't');
    assert(METHOD_SLACK_CHAT_POST_MESSAGE@[0] == 's');
    assert(METHOD_SLACK_CHAT_POST_EPHEMERAL@[0] == 's');
    assert(METHOD_SLACK_SEND_DM@[0] == 's');
}

/// Every method that is advertised is served: it is neither unknown nor passed
/// over in silence.
pub proof fn law_advertised_methods_are_served(supports_ack: bool, i: int)
    requires
        0 <= i < advertised_methods(supports_ack).len(),
    ensures
        route_of(advertised_methods(supports_ack)[i]) != Route::Unknown,
        route_of(advertised_methods(supports_ack)[i]) != Route::Notification,
        route_of(advertised_methods(supports_ack)[i]) != Route::Initialized,
{
    lemma_method_names();
    assert(advertised_methods(supports_ack)[i] == advertised_methods(true)[i]);
}

/// The id with which a step goes on or is answered: none where nothing is
/// written.
pub open spec fn id_of_step(step: Step) -> Option<Option<JsonView>> {
    match step {
        Step::Silent => None,
        Step::Reply(response) => Some(response@.id),
        Step::Initialize { id, .. } => Some(optional(id)),
        Step::Health { id, .. } => Some(optional(id)),
        Step::Schema { id, .. } => Some(optional(id)),
        Step::Watch { id, .. } => Some(optional(id)),
        Step::Ack { id, .. } => Some(optional(id)),
        Step::PostMessage { id, .. } => Some(optional(id)),
        Step::PostEphemeral { id, .. } => Some(optional(id)),
        Step::SendDm { id, .. } => Some(optional(id)),
    }
}

/// Nothing is written for `initialized` and for `$/` notifications other than
/// `$/ping`; every other request goes on, or is answered, with its own id.
pub proof fn law_answers(
    step: Step,
    request: RpcRequest,
    info: PluginInfoView,
    protocol_version: Seq<char>,
    backend: SlackBackend,
)
    requires
        is_step_of(step, request, info, protocol_version, backend),
    ensures
        step is Silent <==> request.method@ == "initialized"@ || ("$/"@.is_prefix_of(
            request.method@,
        ) && request.method@ != "$/ping"@),
        !(step is Silent) ==> id_of_step(step) == Some(optional(request.id)),
{
    reveal_strlit("$/");
    reveal_strlit("initialize");
    reveal_strlit("initialized");
    reveal_strlit("health/check");
    reveal_strlit("shutdown");
    reveal_strlit("trigger/schema");
    reveal_strlit("trigger/watch");
    reveal_strlit("trigger/ack");
    reveal_strlit("slack/chat_post_message");
    reveal_strlit("slack/chat_post_ephemeral");
    reveal_strlit("slack/send_dm");
    let method = request.method@;
    assert("initialize"@.len() == 10 && "initialized"@.len() == 11);
    if "$/"@.is_prefix_of(method) {
        assert(method[0] == "$/"@[0]);
        assert("initialize"@[0] == 'i' && "health/check"@[0] == 'h' && "shutdown"@[0] == 's'
            && METHOD_TRIGGER_SCHEMA@[0] == 't' && METHOD_TRIGGER_WATCH@[0] == 't'
            && METHOD_TRIGGER_ACK@[0] == 't' && METHOD_SLACK_CHAT_POST_MESSAGE@[0] == 's'
            && METHOD_SLACK_CHAT_POST_EPHEMERAL@[0] == 's' && METHOD_SLACK_SEND_DM@[0] == 's'
            && "initialized"@[0] == 'i');
    }
    reveal_strlit("$/ping");
    assert("$/ping"@[0] == '$' && "initialized"@[0] == 'i');
}

/// The six categories tell the six failure modes apart, and a failure's data
/// carry its category.
pub proof fn law_category(a: SlackApiErrorView, b: SlackApiErrorView)
    ensures
        category(a) == category(b) <==> ((a is InvalidRequest <==> b is InvalidRequest) && (
        a is MissingBotToken <==> b is MissingBotToken) && (a is Slack <==> b is Slack) && (
        a is Http <==> b is Http) && (a is Transport <==> b is Transport) && (a is Decode
            <==> b is Decode)),
        failure_data(a).text_at("category"@) == Some(category(a)),
        rpc_failure(a).code == INVALID_PARAMS <==> a is InvalidRequest,
{
    reveal_strlit("invalid_request");
    reveal_strlit("missing_token");
    reveal_strlit("slack_error");
    reveal_strlit("http");
    reveal_strlit("transport");
    reveal_strlit("decode");
    reveal_strlit("category");
    reveal_strlit("body");
    reveal_strlit("status");
    assert("invalid_request"@.len() == 15 && "missing_token"@.len() == 13 && "slack_error"@.len()
        == 11 && "http"@.len() == 4 && "transport"@.len() == 9 && "decode"@.len() == 6
        && "category"@.len() == 8 && "body"@.len() == 4 && "status"@.len() == 6);
}

/// Slack's error code, its answer and an HTTP status reach the caller in the
/// failure's data.
pub proof fn law_failure_data(code: Seq<char>, answer: JsonView, status: u16, text: Seq<char>)
    ensures
        ({
            let data = failure_data(SlackApiErrorView::Slack { code, body: answer });
            data.text_at("slack_error"@) == Some(code) && data.get("body"@) == Some(answer)
        }),
        ({
            let data = failure_data(SlackApiErrorView::Http { status, body: text });
            data.get("status"@) == Some(JsonView::Number(decimal(status as nat))) && data.text_at(
                "body"@,
            ) == Some(text)
        }),
{
    reveal_strlit("slack_error");
    reveal_strlit("body");
    reveal_strlit("status");
    assert("slack_error"@.len() == 11 && "body"@.len() == 4 && "status"@.len() == 6);
}

/// An outbound method makes at most two requests: the answer to the first ends
/// it, unless it opens the channel of a direct message; the answer to the one
/// that posts ends it.
pub proof fn law_two_requests_at_most(
    step: SlackStep,
    id: Option<JsonView>,
    client: SlackWebClientView,
    next: Next,
    answer: Result<JsonView, SlackApiErrorView>,
)
    requires
        follows(step, id, client, next, answer),
    ensures
        next is Finish ==> step is Reply,
        step matches SlackStep::Post { next: after, .. } ==> next is PostDm && after is Finish,
{
}

/// A direct message is posted in the channel that was opened for it, and its
/// response is Slack's whole answer to the post.
pub proof fn law_dm_is_posted(
    first: SlackStep,
    second: SlackStep,
    third: SlackStep,
    id: Option<JsonView>,
    client: SlackWebClientView,
    params: DmView,
    opened: JsonView,
    answer: JsonView,
)
    requires
        opens_dm(first, id, client, params),
        dm_request(client, params) is Ok,
        opened_channel(opened) is Some,
        !is_blank(opened_channel(opened)->0),
        first matches SlackStep::Post { next, .. }
            ==> follows(second, id, client, next, Ok(opened)),
        second matches SlackStep::Post { next, .. }
            ==> follows(third, id, client, next, Ok(answer)),
    ensures
        second matches SlackStep::Post { request, .. } && request@.body.text_at("channel"@)
            == opened_channel(opened) && request@.body.text_at("text"@) == non_empty(params.text)
            && request@.body.get("blocks"@) == params.blocks,
        third matches SlackStep::Reply(response) && response@ == done(id, answer),
{
    law_dm(client, params, opened);
}

/// The id that a step of an outbound method carries, in its reply or with the
/// request that it sends.
pub open spec fn id_of_slack_step(step: SlackStep) -> Option<JsonView> {
    match step {
        SlackStep::Reply(response) => response@.id,
        SlackStep::Post { id, .. } => optional(id),
    }
}

/// Every step of an outbound method carries the id of its request, in its reply
/// or with the request that it sends: the first step, whether the parameters
/// decode or not and whether they are refused or not, and each that follows an
/// answer.
pub proof fn law_outbound_id(
    step: SlackStep,
    id: Option<JsonView>,
    client: SlackWebClientView,
    request: Result<ApiRequestView, SlackApiErrorView>,
    params: DmView,
    reason: Seq<char>,
    next: Next,
    answer: Result<JsonView, SlackApiErrorView>,
)
    requires
        posts_last(step, id, request) || opens_dm(step, id, client, params) || rejects_params(
            step,
            id,
            reason,
        ) || follows(step, id, client, next, answer),
    ensures
        id_of_slack_step(step) == id,
{
}

/// Every response that is given later carries the id that its step went on with.
pub proof fn law_response_id(
    id: Option<JsonView>,
    method: Seq<char>,
    encoding: Result<Json, String>,
    health: HealthOutcome,
    started: Result<(), RpcError>,
    decoded: Result<TriggerAckParams, String>,
    taken: Result<(), RpcError>,
    answer: Result<JsonView, SlackApiErrorView>,
)
    ensures
        encoded(id, method, encoding).id == id,
        health_reply(id, health).id == id,
        watch_reply(id, started).id == id,
        ack_reply(id, decoded, taken).id == id,
        slack_outcome(id, answer).id == id,
{
}

/// The first of the lines from `from` on that is not passed over, or their end.
pub open spec fn first_request(
    lines: Seq<Seq<char>>,
    decoded: Seq<Option<RpcRequest>>,
    from: int,
) -> int
    decreases lines.len() - from,
{
    if 0 <= from < lines.len() && !holds_request(lines[from], decoded[from]) {
        first_request(lines, decoded, from + 1)
    } else {
        from
    }
}

/// Reading goes on to the first line that holds a request, over all that hold
/// none, and ends only where no line is left that holds one.
pub proof fn law_first_request(
    lines: Seq<Seq<char>>,
    decoded: Seq<Option<RpcRequest>>,
    from: int,
    inputs: Seq<Input>,
)
    requires
        0 <= from <= lines.len(),
        decoded.len() == lines.len(),
        inputs.len() == lines.len() + 1,
        forall|i: int|
            0 <= i < lines.len() ==> is_input_of(#[trigger] inputs[i], Some(lines[i]), decoded[i]),
        is_input_of(inputs[lines.len() as int], None, None),
    ensures
        ({
            let at = first_request(lines, decoded, from);
            &&& from <= at <= lines.len()
            &&& forall|i: int| from <= i < at ==> #[trigger] inputs[i] is Skip
            &&& at < lines.len() ==> holds_request(lines[at], decoded[at]) && inputs[at]
                == Input::Serve(decoded[at]->0)
            &&& at == lines.len() <==> forall|i: int|
                from <= i < lines.len() ==> !holds_request(#[trigger] lines[i], decoded[i])
            &&& inputs[at] is End <==> at == lines.len()
        }),
    decreases lines.len() - from,
{
    if from < lines.len() {
        assert(is_input_of(inputs[from], Some(lines[from]), decoded[from]));
        if !holds_request(lines[from], decoded[from]) {
            law_first_request(lines, decoded, from + 1, inputs);
        }
    }
}

/// The line that is written for a frame holds that frame and nothing more,
/// where the frame has no white space at its ends.
pub proof fn law_frame(frame: Seq<char>)
    requires
        trimmed(frame) == frame,
    ensures
        trimmed(frame.push('\n')) == frame,
{
    law_trimmed(frame);
    let line = frame.push('\n');
    assert(line.drop_last() =~= frame);
    if frame.len() == 0 {
        assert(line.drop_first() =~= frame);
        assert(trimmed_start(line.drop_first()) == frame);
        assert(trimmed_start(line) == frame);
        assert(trimmed_end(frame) == frame);
    } else {
        assert(line[0] == frame[0]);
        assert(trimmed_start(line) == line);
        assert(trimmed_end(line) == trimmed_end(frame));
        assert(trimmed_start(frame) == frame);
    }
}

/// Frames on the output stay apart: the line that is written for a frame without
/// line feeds ends with the frame, whatever is written after it.
pub proof fn law_frames_stay_apart(frame: Seq<char>, after: Seq<char>)
    requires
        !frame.contains('\n'),
    ensures
        is_line(frame.push('\n')),
        ({
            let output = frame.push('\n') + after;
            &&& cut_at(output, '\n') == frame.len()
            &&& output.take(frame.len() as int) == frame
            &&& output.skip(frame.len() as int + 1) == after
        }),
{
    let output = frame.push('\n') + after;
    assert(frame.push('\n').drop_last() =~= frame);
    assert forall|i: int| 0 <= i < frame.len() implies output[i] != '\n' by {
        assert(output[i] == frame[i]);
    }
    lemma_cut_at(output, '\n', frame.len() as int);
    assert(output.take(frame.len() as int) =~= frame);
    assert(output.skip(frame.len() as int + 1) =~= after);
}

/// The output after these frames were written one after the other.
pub open spec fn output_of(frames: Seq<Seq<char>>) -> Seq<char>
    decreases frames.len(),
{
    if frames.len() == 0 {
        Seq::empty()
    } else {
        frames[0].push('\n') + output_of(frames.drop_first())
    }
}

/// The lines of the output, without their line feeds.
pub open spec fn lines_of(output: Seq<char>) -> Seq<Seq<char>>
    decreases output.len(),
{
    let cut = cut_at(output, '\n') as int;
    if cut < output.len() {
        seq![output.take(cut)] + lines_of(output.skip(cut + 1))
    } else {
        Seq::empty()
    }
}

/// Whatever frames without line feeds are written, and in whatever order, the
/// lines of the output are these frames, each whole.
pub proof fn law_output_lines(frames: Seq<Seq<char>>)
    requires
        forall|i: int| 0 <= i < frames.len() ==> !(#[trigger] frames[i]).contains('\n'),
    ensures
        lines_of(output_of(frames)) == frames,
    decreases frames.len(),
{
    if frames.len() == 0 {
        assert(lines_of(output_of(frames)) =~= frames);
    } else {
        let rest = frames.drop_first();
        law_frames_stay_apart(frames[0], output_of(rest));
        assert forall|i: int| 0 <= i < rest.len() implies !(#[trigger] rest[i]).contains('\n') by {
            assert(rest[i] == frames[i + 1]);
        }
        law_output_lines(rest);
        assert(lines_of(output_of(frames)) =~= frames);
    }
}

/// Where each method goes: the eleven names to their own, every other name that
/// begins with `$/` to a notification, and all else to the unknown.
pub proof fn law_routes(method: Seq<char>)
    ensures
        method == "initialize"@ ==> route_of(method) == Route::Initialize,
        method == "initialized"@ ==> route_of(method) == Route::Initialized,
        method == "$/ping"@ ==> route_of(method) == Route::Ping,
        method == "health/check"@ ==> route_of(method) == Route::HealthCheck,
        method == "shutdown"@ ==> route_of(method) == Route::Shutdown,
        method == "trigger/schema"@ ==> route_of(method) == Route::Schema,
        method == "trigger/watch"@ ==> route_of(method) == Route::Watch,
        method == "trigger/ack"@ ==> route_of(method) == Route::Ack,
        method == "slack/chat_post_message"@ ==> route_of(method) == Route::PostMessage,
        method == "slack/chat_post_ephemeral"@ ==> route_of(method) == Route::PostEphemeral,
        method == "slack/send_dm"@ ==> route_of(method) == Route::SendDm,
        (method
            != "initialize"@ && method
            != "initialized"@ && method
            != "$/ping"@ && method
            != "health/check"@ && method
            != "shutdown"@ && method
            != "trigger/schema"@ && method
            != "trigger/watch"@ && method
            != "trigger/ack"@ && method
            != "slack/chat_post_message"@ && method
            != "slack/chat_post_ephemeral"@ && method
            != "slack/send_dm"@) ==> route_of(method) == (if "$/"@.is_prefix_of(method) {
            Route::Notification
        } else {
            Route::Unknown
        }),
{
    reveal_strlit("initialize");
    reveal_strlit("initialized");
    reveal_strlit("$/ping");
    reveal_strlit("health/check");
    reveal_strlit("shutdown");
    reveal_strlit("trigger/schema");
    reveal_strlit("trigger/watch");
    reveal_strlit("trigger/ack");
    reveal_strlit("slack/chat_post_message");
    reveal_strlit("slack/chat_post_ephemeral");
    reveal_strlit("slack/send_dm");
    reveal_strlit("$/");
    assert("initialize"@.len() == 10 && "initialized"@.len() == 11 && "$/ping"@.len() == 6
        && "health/check"@.len() == 12 && "shutdown"@.len() == 8 && "trigger/schema"@.len()
            == 14 && "trigger/watch"@.len() == 13 && "trigger/ack"@.len() == 11
                && "slack/chat_post_message"@.len() == 23 && "slack/chat_post_ephemeral"@.len()
                    == 25 && "slack/send_dm"@.len() == 13);
    assert("initialize"@[0] == 'i' && "initialized"@[0] == 'i' && "$/ping"@[0] == '$'
        && "health/check"@[0] == 'h' && "shutdown"@[0] == 's' && "trigger/schema"@[0] == 't'
            && "trigger/watch"@[0] == 't' && "trigger/ack"@[0] == 't'
                && "slack/chat_post_message"@[0] == 's' && "slack/chat_post_ephemeral"@[0]
                    == 's' && "slack/send_dm"@[0] == 's');
}

/// What each request needs next, with its own id. A ping and a shutdown are
/// answered with an empty object. A method with parameters goes on with those of
/// the request, whatever they are, and is answered that they are missing where
/// there are none.
pub proof fn law_steps(
    step: Step,
    request: RpcRequest,
    info: PluginInfoView,
    protocol_version: Seq<char>,
    backend: SlackBackend,
)
    requires
        is_step_of(step, request, info, protocol_version, backend),
    ensures
        request.method@ == "initialize"@ ==> (step matches Step::Initialize { id, result }
            && optional(id) == optional(request.id) && result.protocol_version@ == protocol_version
            && result.plugin_info@ == info && is_capabilities_of(result.capabilities, true)),
        request.method@ == "initialized"@ ==> step is Silent,
        request.method@ == "$/ping"@ || request.method@ == "shutdown"@
            ==> (step matches Step::Reply(
            response,
        ) && response@ == (RpcResponseView {
            id: optional(request.id),
            outcome: OutcomeView::Done(JsonView::Object(Map::empty())),
        })),
        request.method@ == "health/check"@ ==> (step matches Step::Health { id, health }
            && optional(
            id,
        ) == optional(request.id) && (health matches Ok(result) && is_health_of(
            result,
            backend.spec_config()@,
        ))),
        request.method@ == "trigger/schema"@ ==> (step matches Step::Schema { id, schema }
            && optional(id) == optional(request.id) && is_slack_schema(schema)),
        request.method@ == "trigger/watch"@ ==> (step matches Step::Watch { id, watch } && optional(
            id,
        ) == optional(request.id) && is_watch_of(
            watch,
            backend.spec_config()@,
            backend.spec_watching(),
        )),
        request.method@ == "trigger/ack"@ ==> (request.params matches Some(params) ==> (
        step matches Step::Ack { id, params: given } && optional(id) == optional(request.id)
            && given@ == params@)),
        request.method@ == "trigger/ack"@ && request.params is None ==> (step matches Step::Reply(
            response,
        ) && response@ == (RpcResponseView {
            id: optional(request.id),
            outcome: OutcomeView::Failed(
                RpcErrorView { code: INVALID_PARAMS, message: "missing params"@, data: None },
            ),
        })),
        request.method@ == "slack/chat_post_message"@ ==> (request.params matches Some(params) ==> (
        step matches Step::PostMessage { id, params: given } && optional(id) == optional(request.id)
            && given@ == params@)),
        request.method@ == "slack/chat_post_message"@ && request.params is None
            ==> (step matches Step::Reply(
            response,
        ) && response@ == (RpcResponseView {
            id: optional(request.id),
            outcome: OutcomeView::Failed(
                RpcErrorView { code: INVALID_PARAMS, message: "missing params"@, data: None },
            ),
        })),
        request.method@ == "slack/chat_post_ephemeral"@
            ==> (request.params matches Some(params) ==> (
        step matches Step::PostEphemeral { id, params: given } && optional(id)
            == optional(request.id)
            && given@ == params@)),
        request.method@ == "slack/chat_post_ephemeral"@ && request.params is None
            ==> (step matches Step::Reply(
            response,
        ) && response@ == (RpcResponseView {
            id: optional(request.id),
            outcome: OutcomeView::Failed(
                RpcErrorView { code: INVALID_PARAMS, message: "missing params"@, data: None },
            ),
        })),
        request.method@ == "slack/send_dm"@ ==> (request.params matches Some(params) ==> (
        step matches Step::SendDm { id, params: given } && optional(id) == optional(request.id)
            && given@ == params@)),
        request.method@ == "slack/send_dm"@ && request.params is None ==> (step matches Step::Reply(
            response,
        ) && response@ == (RpcResponseView {
            id: optional(request.id),
            outcome: OutcomeView::Failed(
                RpcErrorView { code: INVALID_PARAMS, message: "missing params"@, data: None },
            ),
        })),
        route_of(request.method@) == Route::Notification ==> step is Silent,
        route_of(request.method@) == Route::Unknown ==> (step matches Step::Reply(response)
            && response@ == (RpcResponseView {
            id: optional(request.id),
            outcome: OutcomeView::Failed(
                RpcErrorView {
                    code: METHOD_NOT_FOUND,
                    message: "method '"@ + request.method@ + "' not implemented by "@ + info.name,
                    data: None,
                },
            ),
        })),
        hands_out(step) <==> (step matches Step::Watch { watch, .. } && watch is Ok),
{
    law_routes(request.method@);
}

/// The errors for what is missing, does not decode or encode, or is not there.
pub proof fn law_errors(a: Seq<char>, b: Seq<char>)
    ensures
        missing_params() == (RpcErrorView {
                code: INVALID_PARAMS,
                message: "missing params"@,
                data: None,
            }),
        invalid_params(a) == (RpcErrorView {
                code: INVALID_PARAMS,
                message: "invalid params: "@ + a,
                data: None,
            }),
        unencodable(a, b) == (RpcErrorView {
                code: INTERNAL_ERROR,
                message: "failed to encode "@ + a + " result: "@ + b,
                data: None,
            }),
        unknown_method(a, b) == (RpcErrorView {
                code: METHOD_NOT_FOUND,
                message: "method '"@ + b + "' not implemented by "@ + a,
                data: None,
            }),
{
}

/// What is answered: a result is handed on whole with the request's id, and an
/// error likewise.
pub proof fn law_replies(
    id: Option<JsonView>,
    result: JsonView,
    error: RpcErrorView,
    method: Seq<char>,
    encoding: Result<Json, String>,
    answer: Result<JsonView, SlackApiErrorView>,
)
    ensures
        done(id, result) == (RpcResponseView { id, outcome: OutcomeView::Done(result) }),
        failed(id, error) == (RpcResponseView { id, outcome: OutcomeView::Failed(error) }),
        encoding matches Ok(value) ==> encoded(id, method, encoding) == (RpcResponseView {
            id,
            outcome: OutcomeView::Done(value@),
        }),
        encoding matches Err(reason) ==> encoded(id, method, encoding) == (RpcResponseView {
            id,
            outcome: OutcomeView::Failed(
                RpcErrorView {
                    code: INTERNAL_ERROR,
                    message: "failed to encode "@ + method + " result: "@ + reason@,
                    data: None,
                },
            ),
        }),
        answer matches Ok(value) ==> slack_outcome(id, answer) == (RpcResponseView {
            id,
            outcome: OutcomeView::Done(value),
        }),
        answer matches Err(failure) ==> slack_outcome(id, answer) == (RpcResponseView {
            id,
            outcome: OutcomeView::Failed(rpc_failure(failure)),
        }),
{
}

/// What a health check, a watch and an ack are answered.
pub proof fn law_backend_replies(
    id: Option<JsonView>,
    health: HealthOutcome,
    started: Result<(), RpcError>,
    decoded: Result<TriggerAckParams, String>,
    taken: Result<(), RpcError>,
)
    ensures
        health matches HealthOutcome::Checked(Ok(value)) ==> health_reply(id, health) == (
        RpcResponseView { id, outcome: OutcomeView::Done(value@) }),
        health matches HealthOutcome::Checked(Err(reason)) ==> health_reply(id, health) == (
        RpcResponseView {
            id,
            outcome: OutcomeView::Failed(
                RpcErrorView {
                    code: INTERNAL_ERROR,
                    message: "failed to encode "@ + "health/check"@ + " result: "@ + reason@,
                    data: None,
                },
            ),
        }),
        health matches HealthOutcome::Failed { message, unhealthy } ==> health_reply(id, health)
            == (
        RpcResponseView {
            id,
            outcome: OutcomeView::Failed(
                RpcErrorView {
                    code: INTERNAL_ERROR,
                    message: "health/check failed: "@ + message@,
                    data: Some(JsonView::Object(Map::empty().insert("status"@, unhealthy@))),
                },
            ),
        }),
        started is Ok ==> watch_reply(id, started) == (RpcResponseView {
            id,
            outcome: OutcomeView::Done(
                JsonView::Object(Map::empty().insert("watching"@, JsonView::Bool(true))),
            ),
        }),
        started matches Err(error) ==> watch_reply(id, started) == (RpcResponseView {
            id,
            outcome: OutcomeView::Failed(error@),
        }),
        decoded matches Ok(params) ==> (taken is Ok ==> ack_reply(id, decoded, taken) == (
        RpcResponseView {
            id,
            outcome: OutcomeView::Done(
                JsonView::Object(
                    Map::empty().insert("event_id"@, JsonView::Text(params.event_id@)).insert(
                        "acked"@,
                        JsonView::Bool(true),
                    ),
                ),
            ),
        })),
        decoded is Ok ==> (taken matches Err(error) ==> ack_reply(id, decoded, taken) == (
        RpcResponseView { id, outcome: OutcomeView::Failed(error@) })),
        decoded matches Err(reason) ==> ack_reply(id, decoded, taken) == (RpcResponseView {
            id,
            outcome: OutcomeView::Failed(
                RpcErrorView {
                    code: INVALID_PARAMS,
                    message: "invalid params: "@ + reason@,
                    data: None,
                },
            ),
        }),
{
}

/// The JSON-RPC error for each failure: its code, its words, its category, and
/// what came from Slack.
pub proof fn law_failures(text: Seq<char>, status: u16, body: JsonView)
    ensures
        rpc_failure(SlackApiErrorView::InvalidRequest(text)) == (RpcErrorView {
                code: INVALID_PARAMS,
                message: text,
                data: Some(JsonView::Object(Map::empty()
                    .insert("category"@, JsonView::Text("invalid_request"@)))),
            }),
        rpc_failure(SlackApiErrorView::MissingBotToken) == (RpcErrorView {
                code: INTERNAL_ERROR,
                message: "SLACK_BOT_TOKEN unset"@,
                data: Some(JsonView::Object(Map::empty()
                    .insert("category"@, JsonView::Text("missing_token"@)))),
            }),
        rpc_failure(SlackApiErrorView::Slack { code: text, body }) == (RpcErrorView {
                code: INTERNAL_ERROR,
                message: "slack api error: "@ + text,
                data: Some(JsonView::Object(Map::empty()
                    .insert("category"@, JsonView::Text("slack_error"@))
                        .insert("slack_error"@, JsonView::Text(text)).insert("body"@, body))),
            }),
        rpc_failure(SlackApiErrorView::Http { status, body: text }) == (RpcErrorView {
                code: INTERNAL_ERROR,
                message: "slack http "@ + decimal(status as nat),
                data: Some(JsonView::Object(Map::empty()
                    .insert("category"@, JsonView::Text("http"@))
                        .insert("status"@, JsonView::Number(decimal(status as nat)))
                            .insert("body"@, JsonView::Text(text)))),
            }),
        rpc_failure(SlackApiErrorView::Transport(text)) == (RpcErrorView {
                code: INTERNAL_ERROR,
                message: "slack transport: "@ + text,
                data: Some(JsonView::Object(Map::empty()
                    .insert("category"@, JsonView::Text("transport"@)))),
            }),
        rpc_failure(SlackApiErrorView::Decode(text)) == (RpcErrorView {
                code: INTERNAL_ERROR,
                message: "slack decode: "@ + text,
                data: Some(JsonView::Object(Map::empty()
                    .insert("category"@, JsonView::Text("decode"@)))),
            }),
{
}

/// The first step of an outbound method: the request that was prepared is sent
/// as it is, with the id kept, and why there is none is answered.
pub proof fn law_first_steps(
    step: SlackStep,
    id: Option<JsonView>,
    prepared: Result<ApiRequestView, SlackApiErrorView>,
    client: SlackWebClientView,
    params: DmView,
    reason: Seq<char>,
)
    ensures
        posts_last(step, id, prepared) ==> (prepared matches Ok(request) ==> (
        step matches SlackStep::Post { id: kept, request: sent, next } && optional(kept) == id
            && sent@ == request && next is Finish)),
        posts_last(step, id, prepared) ==> (prepared matches Err(error) ==> (
        step matches SlackStep::Reply(response) && response@ == (RpcResponseView {
            id,
            outcome: OutcomeView::Failed(rpc_failure(error)),
        }))),
        opens_dm(step, id, client, params)
            ==> (dm_opening(client, params) matches Ok((request, kept))
            ==> (step matches SlackStep::Post { id: own, request: sent, next } && optional(own)
                == id
            && sent@ == request && (next matches Next::PostDm(pending) && pending@ == kept))),
        opens_dm(step, id, client, params) ==> (dm_opening(client, params) matches Err(error) ==> (
        step matches SlackStep::Reply(response) && response@ == (RpcResponseView {
            id,
            outcome: OutcomeView::Failed(rpc_failure(error)),
        }))),
        rejects_params(step, id, reason) ==> (step matches SlackStep::Reply(response) && response@
            == (RpcResponseView {
            id,
            outcome: OutcomeView::Failed(
                RpcErrorView {
                    code: INVALID_PARAMS,
                    message: "invalid params: "@ + reason,
                    data: None,
                },
            ),
        })),
{
}

/// What follows Slack's answer: it is answered whole, or its failure is, unless
/// it names the channel of a direct message, which is then posted there.
pub proof fn law_next_steps(
    step: SlackStep,
    id: Option<JsonView>,
    client: SlackWebClientView,
    next: Next,
    answer: Result<JsonView, SlackApiErrorView>,
)
    requires
        follows(step, id, client, next, answer),
    ensures
        next is Finish ==> (answer matches Ok(value) ==> (step matches SlackStep::Reply(response)
            && response@ == (RpcResponseView { id, outcome: OutcomeView::Done(value) }))),
        answer matches Err(error) ==> (step matches SlackStep::Reply(response) && response@ == (
        RpcResponseView { id, outcome: OutcomeView::Failed(rpc_failure(error)) })),
        next matches Next::PostDm(pending) ==> (answer matches Ok(opened) ==> posts_last(
            step,
            id,
            dm_message_request(client, opened, pending@),
        )),
{
}

/// What the answer to a POST request says: what its status and text say, where
/// the text could be read, and otherwise what its status says; and where none
/// came, that the transport failed.
pub proof fn law_reply_answer(reply: Result<HttpReply, String>)
    ensures
        reply matches Ok(http) ==> (http.text matches Ok(text) ==> reply_answer(reply) == reply_of(
            http.status,
            text@,
            parsed_json(text@),
        )),
        reply matches Ok(http) ==> (http.text matches Err(reason) ==> reply_answer(reply) == Err::<
            JsonView,
            SlackApiErrorView,
        >(unread_of(http.status, reason@))),
        reply matches Err(message) ==> reply_answer(reply) == Err::<JsonView, SlackApiErrorView>(
            SlackApiErrorView::Transport(message@),
        ),
{
}

/// A posted message is answered with Slack's whole answer, from the parameters to
/// the response: every answer with a 2xx status whose `ok` is true is the result,
/// with the request's id.
pub proof fn law_outbound_answer(
    step: SlackStep,
    id: Option<JsonView>,
    client: SlackWebClientView,
    http: HttpReply,
    text: String,
    answer: JsonView,
)
    requires
        follows(step, id, client, Next::Finish, reply_answer(Ok(http))),
        200 <= http.status < 300,
        http.text == Ok::<String, String>(text),
        parsed_json(text@) == Parsed::Value(answer),
        answer.bool_at("ok"@) == Some(true),
    ensures
        step matches SlackStep::Reply(response) && response@ == (RpcResponseView {
            id,
            outcome: OutcomeView::Done(answer),
        }),
{
}

/// A notification is a `trigger/event` with the id of the watch request, where it
/// had one, and the event or error, whole.
pub proof fn law_notification(
    notification: RpcNotification,
    request_id: Option<JsonView>,
    value: JsonView,
)
    ensures
        is_notification(notification, request_id, "event"@, value) ==> {
            &&& notification.method@ == "trigger/event"@
            &&& notification.params@ is Object
            &&& notification.params@.get("event"@) == Some(value)
            &&& notification.params@.get("id"@) == request_id
            &&& forall|name: Seq<char>| #[trigger]
                notification.params@.get(name) is Some ==> name == "id"@ || name == "event"@
        },
        is_notification(notification, request_id, "error"@, value) ==> {
            &&& notification.method@ == "trigger/event"@
            &&& notification.params@ is Object
            &&& notification.params@.get("error"@) == Some(value)
            &&& notification.params@.get("id"@) == request_id
            &&& forall|name: Seq<char>| #[trigger]
                notification.params@.get(name) is Some ==> name == "id"@ || name == "error"@
        },
{
    reveal_strlit("id");
    reveal_strlit("event");
    reveal_strlit("error");
    assert("id"@.len() == 2 && "event"@.len() == 5 && "error"@.len() == 5);
}

/// Every request on a line that is not blank is served, whatever its method, id
/// and parameters; a line that is blank or holds none is passed over, and the end
/// of the input ends the reading.
pub proof fn law_input(input: Input, line: Seq<char>, request: RpcRequest)
    ensures
        trimmed(line).len() > 0 && is_input_of(input, Some(line), Some(request)) ==> input
            == Input::Serve(request),
        trimmed(line).len() == 0 && is_input_of(input, Some(line), Some(request)) ==> input is Skip,
        is_input_of(input, Some(line), None) ==> input is Skip,
        is_input_of(input, None, Some(request)) ==> input is End,
        is_input_of(input, None, None) ==> input is End,
        holds_request(line, Some(request)) <==> trimmed(line).len() > 0,
        !holds_request(line, None),
{
}

/// The capabilities: the six methods and, where acks are supported, a seventh.
pub proof fn law_capabilities(capabilities: PluginCapabilities, supports_ack: bool)
    requires
        is_capabilities_of(capabilities, supports_ack),
    ensures
        supports_ack ==> capabilities.methods.deep_view() == seq![
            "trigger/watch"@,
            "trigger/schema"@,
            "health/check"@,
            "slack/chat_post_message"@,
            "slack/chat_post_ephemeral"@,
            "slack/send_dm"@,
            "trigger/ack"@,
        ],
        !supports_ack ==> capabilities.methods.deep_view() == seq![
            "trigger/watch"@,
            "trigger/schema"@,
            "health/check"@,
            "slack/chat_post_message"@,
            "slack/chat_post_ephemeral"@,
            "slack/send_dm"@,
        ],
        capabilities.streaming,
        !capabilities.progress,
        !capabilities.cancellation,
        capabilities.subject_kinds@.len() == 0,
        capabilities.mcp_tools@.len() == 0,
{
    assert(seq![
        "trigger/watch"@,
        "trigger/schema"@,
        "health/check"@,
        "slack/chat_post_message"@,
        "slack/chat_post_ephemeral"@,
        "slack/send_dm"@,
    ].push("trigger/ack"@) =~= seq![
        "trigger/watch"@,
        "trigger/schema"@,
        "health/check"@,
        "slack/chat_post_message"@,
        "slack/chat_post_ephemeral"@,
        "slack/send_dm"@,
        "trigger/ack"@,
    ]);
}

} // verus!
