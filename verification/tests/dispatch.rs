use animus_trigger_slack::backend::SlackBackend;
use animus_trigger_slack::config::SlackConfig;
use animus_trigger_slack::dispatch::{
    ack_response, begin_request, compute_capabilities, encoding_error, frame_text, health_response,
    initialize_response, method_not_found, on_stream_item, read_frame, required_params, route,
    schema_response, slack_error_to_rpc, slack_response, start_dm, start_message, terminal_refusal,
    undecodable, watch_response, write_frame, HealthOutcome, Input, Route, SlackStep, Step,
    StreamItem, StreamStep, METHOD_SLACK_CHAT_POST_EPHEMERAL, METHOD_SLACK_CHAT_POST_MESSAGE, METHOD_SLACK_SEND_DM,
};
use animus_trigger_slack::json::Json;
use animus_trigger_slack::manifest::{manifest, manifest_requested};
use animus_trigger_slack::protocol::{
    BackendError, HealthStatus, PluginInfo, RpcError, RpcRequest, RpcResponse, TriggerAckParams,
    TriggerSchema, INTERNAL_ERROR, INVALID_PARAMS, METHOD_NOT_FOUND, METHOD_TRIGGER_ACK, METHOD_TRIGGER_SCHEMA,
    METHOD_TRIGGER_WATCH,
};
use animus_trigger_slack::web_api::{
    ChatPostMessageParams, SendDmParams, SlackApiError, SlackWebClient,
};
use serde_json::Value;

fn json(text: &str) -> Json {
    Json::parse(text).expect("test JSON")
}

fn value(text: &str) -> Value {
    serde_json::from_str(text).expect("test JSON")
}

fn backend() -> SlackBackend {
    SlackBackend::new(SlackConfig::for_testing("http://localhost"))
}

fn request(method: &str, params: Option<&str>) -> RpcRequest {
    RpcRequest {
        id: Some(json("\"r1\"")),
        method: method.to_string(),
        params: params.map(json),
    }
}

fn info() -> PluginInfo {
    PluginInfo {
        name: "animus-trigger-slack".to_string(),
        version: "0.2.0".to_string(),
        plugin_kind: "trigger_backend".to_string(),
        description: Some("Slack.".to_string()),
    }
}

fn begin(method: &str, params: Option<&str>) -> Step {
    begin_request(request(method, params), &info(), "1.0", &mut backend())
}

fn reply(step: Step) -> RpcResponse {
    match step {
        Step::Reply(response) => response,
        other => panic!("expected a reply, got {other:?}"),
    }
}

fn result(response: RpcResponse) -> Value {
    assert_eq!(response.id.map(|id| id.to_value()), Some(value("\"r1\"")));
    response.outcome.expect("a result").to_value()
}

fn error(response: RpcResponse) -> RpcError {
    assert_eq!(response.id.map(|id| id.to_value()), Some(value("\"r1\"")));
    response.outcome.expect_err("an error")
}

fn data(error: RpcError) -> Value {
    error.data.expect("data set").to_value()
}

#[test]
fn capabilities_include_outbound_methods() {
    let backend = SlackBackend::new(SlackConfig::for_testing("http://localhost"));
    let caps = compute_capabilities(&backend.schema());
    assert!(caps
        .methods
        .iter()
        .any(|m| m == METHOD_SLACK_CHAT_POST_MESSAGE));
    assert!(caps
        .methods
        .iter()
        .any(|m| m == METHOD_SLACK_CHAT_POST_EPHEMERAL));
    assert!(caps.methods.iter().any(|m| m == METHOD_SLACK_SEND_DM));
    assert!(caps.methods.iter().any(|m| m == METHOD_TRIGGER_WATCH));
    assert!(caps.methods.iter().any(|m| m == METHOD_TRIGGER_SCHEMA));
    assert!(caps.methods.iter().any(|m| m == METHOD_TRIGGER_ACK));
}

#[test]
fn slack_error_to_rpc_carries_slack_code_in_data() {
    let err = SlackApiError::Slack {
        code: "channel_not_found".into(),
        body: json(r#"{"ok": false, "error": "channel_not_found"}"#),
    };
    let rpc = slack_error_to_rpc(err);
    assert_eq!(rpc.code, INTERNAL_ERROR);
    let data = data(rpc);
    assert_eq!(data["category"], "slack_error");
    assert_eq!(data["slack_error"], "channel_not_found");
}

#[test]
fn slack_error_to_rpc_maps_invalid_request_to_invalid_params() {
    let err = SlackApiError::InvalidRequest("channel must not be empty".into());
    let rpc = slack_error_to_rpc(err);
    assert_eq!(rpc.code, INVALID_PARAMS);
    let data = data(rpc);
    assert_eq!(data["category"], "invalid_request");
}

#[test]
fn slack_error_to_rpc_includes_http_status() {
    let err = SlackApiError::Http {
        status: 503,
        body: "down".into(),
    };
    let rpc = slack_error_to_rpc(err);
    let data = data(rpc);
    assert_eq!(data["status"], 503);
    assert_eq!(data["category"], "http");
}

#[test]
fn slack_error_to_rpc_is_exact() {
    let whole = |error: SlackApiError| {
        let rpc = slack_error_to_rpc(error);
        (rpc.code, rpc.message.clone(), data(rpc))
    };
    assert_eq!(
        whole(SlackApiError::InvalidRequest("why".into())),
        (-32602, "why".to_string(), value(r#"{"category": "invalid_request"}"#))
    );
    assert_eq!(
        whole(SlackApiError::MissingBotToken),
        (-32603, "SLACK_BOT_TOKEN unset".to_string(), value(r#"{"category": "missing_token"}"#))
    );
    assert_eq!(
        whole(SlackApiError::Slack { code: "c".into(), body: json("[1]") }),
        (
            -32603,
            "slack api error: c".to_string(),
            value(r#"{"category": "slack_error", "slack_error": "c", "body": [1]}"#)
        )
    );
    assert_eq!(
        whole(SlackApiError::Http { status: 65535, body: "b".into() }),
        (
            -32603,
            "slack http 65535".to_string(),
            value(r#"{"category": "http", "status": 65535, "body": "b"}"#)
        )
    );
    assert_eq!(
        whole(SlackApiError::Transport("t".into())),
        (-32603, "slack transport: t".to_string(), value(r#"{"category": "transport"}"#))
    );
    assert_eq!(
        whole(SlackApiError::Decode("d".into())),
        (-32603, "slack decode: d".to_string(), value(r#"{"category": "decode"}"#))
    );
}

#[test]
fn capabilities_are_exact() {
    let mut schema: TriggerSchema = backend().schema();
    let caps = compute_capabilities(&schema);
    let with_ack = [
        "trigger/watch",
        "trigger/schema",
        "health/check",
        "slack/chat_post_message",
        "slack/chat_post_ephemeral",
        "slack/send_dm",
        "trigger/ack",
    ];
    assert_eq!(caps.methods, with_ack);
    assert!(caps.streaming && !caps.progress && !caps.cancellation);
    assert!(caps.subject_kinds.is_empty() && caps.mcp_tools.is_empty());
    schema.supports_ack = false;
    assert_eq!(compute_capabilities(&schema).methods, with_ack[..6]);
}

#[test]
fn advertised_methods_are_served() {
    for method in compute_capabilities(&backend().schema()).methods {
        let to = route(&method);
        assert!(
            !matches!(to, Route::Unknown | Route::Notification | Route::Initialized),
            "{method} goes to {to:?}"
        );
    }
}

#[test]
fn methods_are_routed() {
    let routes = [
        ("initialize", Route::Initialize),
        ("initialized", Route::Initialized),
        ("$/ping", Route::Ping),
        ("health/check", Route::HealthCheck),
        ("shutdown", Route::Shutdown),
        ("trigger/schema", Route::Schema),
        ("trigger/watch", Route::Watch),
        ("trigger/ack", Route::Ack),
        ("slack/chat_post_message", Route::PostMessage),
        ("slack/chat_post_ephemeral", Route::PostEphemeral),
        ("slack/send_dm", Route::SendDm),
        ("$/cancelRequest", Route::Notification),
        ("$/", Route::Notification),
        ("$", Route::Unknown),
        ("", Route::Unknown),
        ("Initialize", Route::Unknown),
        ("trigger/event", Route::Unknown),
    ];
    for (method, expected) in routes {
        assert_eq!(route(method), expected, "{method}");
    }
}

#[test]
fn lifecycle_requests_are_answered() {
    assert_eq!(result(reply(begin("$/ping", None))), value("{}"));
    assert_eq!(result(reply(begin("shutdown", None))), value("{}"));
    assert!(matches!(begin("initialized", None), Step::Silent));
    assert!(matches!(begin("$/cancelRequest", Some("{}")), Step::Silent));
    match begin("initialize", None) {
        Step::Initialize { id, result } => {
            assert_eq!(id.expect("id").as_str(), Some("r1"));
            assert_eq!(result.protocol_version, "1.0");
            assert_eq!(result.plugin_info.name, "animus-trigger-slack");
            assert_eq!(result.plugin_info.version, "0.2.0");
            assert_eq!(result.plugin_info.plugin_kind, "trigger_backend");
            assert_eq!(result.plugin_info.description.as_deref(), Some("Slack."));
            assert_eq!(result.capabilities.methods.len(), 7);
        }
        other => panic!("expected the initialize step, got {other:?}"),
    }
    let missing = error(reply(begin("subject/list", None)));
    assert_eq!(missing.code, METHOD_NOT_FOUND);
    assert_eq!(
        missing.message,
        "method 'subject/list' not implemented by animus-trigger-slack"
    );
    assert!(missing.data.is_none());
    let response = method_not_found(None, "p", "m");
    assert!(response.id.is_none());
    assert_eq!(response.outcome.expect_err("an error").code, -32601);
}

#[test]
fn health_schema_and_watch_go_on_with_the_backends_answer() {
    match begin("health/check", None) {
        Step::Health { health, .. } => {
            assert_eq!(health.expect("health").status, HealthStatus::Healthy);
        }
        other => panic!("expected the health step, got {other:?}"),
    }
    match begin("trigger/schema", None) {
        Step::Schema { schema, .. } => assert_eq!(schema.kinds, ["slack.mention", "slack.dm"]),
        other => panic!("expected the schema step, got {other:?}"),
    }
    match begin("trigger/watch", None) {
        Step::Watch { watch, .. } => {
            assert_eq!(watch.expect("a configuration").slack_api_base, "http://localhost");
        }
        other => panic!("expected the watch step, got {other:?}"),
    }
    let mut bare = SlackBackend::new(SlackConfig::default());
    match begin_request(request("trigger/watch", None), &info(), "1.0", &mut bare) {
        Step::Watch { watch: Err(BackendError::Unavailable(message)), .. } => {
            assert_eq!(message, "SLACK_APP_TOKEN unset");
        }
        other => panic!("expected an unavailable backend, got {other:?}"),
    }
}

#[test]
fn a_second_watch_request_gets_no_stream() {
    let mut backend = backend();
    let watch = |backend: &mut SlackBackend| {
        match begin_request(request("trigger/watch", None), &info(), "1.0", backend) {
            Step::Watch { watch, .. } => watch,
            other => panic!("expected the watch step, got {other:?}"),
        }
    };
    assert!(watch(&mut backend).is_ok());
    let step = begin_request(request("$/ping", None), &info(), "1.0", &mut backend);
    assert!(matches!(step, Step::Reply(_)));
    match watch(&mut backend) {
        Ok(_) => panic!("the stream is handed out once"),
        Err(BackendError::Unavailable(message)) => {
            assert_eq!(message, "event stream already handed out");
        }
    }
}

#[test]
fn methods_with_parameters_need_them() {
    for method in [
        "trigger/ack",
        "slack/chat_post_message",
        "slack/chat_post_ephemeral",
        "slack/send_dm",
    ] {
        let missing = error(reply(begin(method, None)));
        assert_eq!(missing.code, INVALID_PARAMS);
        assert_eq!(missing.message, "missing params");
        assert!(missing.data.is_none());
    }
    let given = r#"{"channel": "C1"}"#;
    match begin("slack/chat_post_message", Some(given)) {
        Step::PostMessage { params, .. } => assert_eq!(params.to_value(), value(given)),
        other => panic!("expected the message step, got {other:?}"),
    }
    assert!(matches!(begin("slack/chat_post_ephemeral", Some("1")), Step::PostEphemeral { .. }));
    assert!(matches!(begin("slack/send_dm", Some("null")), Step::SendDm { .. }));
    assert!(matches!(begin("trigger/ack", Some("{}")), Step::Ack { .. }));
    assert_eq!(
        required_params(None, true).expect("an empty object").to_value(),
        value("{}")
    );
    assert!(required_params(None, false).is_err());
}

#[test]
fn responses_carry_what_was_encoded() {
    let id = || Some(json("\"r1\""));
    assert_eq!(result(initialize_response(id(), Ok(json("[1]")))), value("[1]"));
    let failed = error(initialize_response(id(), Err("no".to_string())));
    assert_eq!(failed.code, INTERNAL_ERROR);
    assert_eq!(failed.message, "failed to encode initialize result: no");
    assert_eq!(result(schema_response(id(), Ok(json("{}")))), value("{}"));
    let failed = error(schema_response(id(), Err("no".to_string())));
    assert_eq!(failed.message, "failed to encode trigger/schema result: no");
    let checked = HealthOutcome::Checked(Ok(json("true")));
    assert_eq!(result(health_response(id(), checked)), value("true"));
    let failed = error(health_response(id(), HealthOutcome::Checked(Err("no".to_string()))));
    assert_eq!(failed.message, "failed to encode health/check result: no");
    let broken = HealthOutcome::Failed {
        message: "down".to_string(),
        unhealthy: json("\"unhealthy\""),
    };
    let failed = error(health_response(id(), broken));
    assert_eq!(failed.message, "health/check failed: down");
    assert_eq!(data(failed), value(r#"{"status": "unhealthy"}"#));
    assert_eq!(encoding_error("m", "r").message, "failed to encode m result: r");
    assert_eq!(undecodable("r").message, "invalid params: r");
}

#[test]
fn watch_ack_and_slack_responses() {
    let id = || Some(json("\"r1\""));
    let refused = || RpcError { code: 5, message: "no".to_string(), data: None };
    assert_eq!(result(watch_response(id(), Ok(()))), value(r#"{"watching": true}"#));
    assert_eq!(error(watch_response(id(), Err(refused()))).code, 5);
    let params = || TriggerAckParams { event_id: "slack:T/C/1".to_string() };
    assert_eq!(
        result(ack_response(id(), Ok(params()), Ok(()))),
        value(r#"{"event_id": "slack:T/C/1", "acked": true}"#)
    );
    assert_eq!(error(ack_response(id(), Ok(params()), Err(refused()))).code, 5);
    let undecoded = error(ack_response(id(), Err("bad".to_string()), Ok(())));
    assert_eq!(undecoded.code, INVALID_PARAMS);
    assert_eq!(undecoded.message, "invalid params: bad");
    assert_eq!(result(slack_response(id(), Ok(json("2.5")))), value("2.5"));
    let failed = error(slack_response(id(), Err(SlackApiError::MissingBotToken)));
    assert_eq!(failed.message, "SLACK_BOT_TOKEN unset");
}

#[test]
fn stream_items_become_notifications() {
    let id = Some(json("3"));
    match on_stream_item(&id, StreamItem::Event(Ok(json(r#"{"id": "e"}"#)))) {
        StreamStep::Notify(notification) => {
            assert_eq!(notification.method, "trigger/event");
            assert_eq!(
                notification.params.to_value(),
                value(r#"{"id": 3, "event": {"id": "e"}}"#)
            );
        }
        other => panic!("expected a notification, got {other:?}"),
    }
    match on_stream_item(&None, StreamItem::Failure(Ok(json("\"x\"")))) {
        StreamStep::NotifyAndStop(notification) => {
            assert_eq!(notification.params.to_value(), value(r#"{"error": "x"}"#));
        }
        other => panic!("expected a last notification, got {other:?}"),
    }
    let undecoded = || Err("no".to_string());
    assert!(matches!(on_stream_item(&id, StreamItem::Event(undecoded())), StreamStep::Skip));
    assert!(matches!(on_stream_item(&id, StreamItem::Failure(undecoded())), StreamStep::Skip));
    assert!(matches!(on_stream_item(&id, StreamItem::End), StreamStep::Stop));
}

#[test]
fn frames_are_lines() {
    assert_eq!(frame_text(" {\"a\": 1} \r\n"), Some("{\"a\": 1}"));
    assert_eq!(frame_text(" \t\r\n"), None);
    assert_eq!(frame_text(""), None);
    let line = write_frame("{\"a\":1}".to_string());
    assert_eq!(line, "{\"a\":1}\n");
    assert_eq!(frame_text(&line), Some("{\"a\":1}"));
    assert_eq!(
        terminal_refusal("p"),
        "p is a STDIO plugin; pipe JSON-RPC on stdin or pass --manifest"
    );
}

#[test]
fn written_frames_stay_apart() {
    let frames = ["{\"text\": \"a\\nb\"}", "[1,\n2]", "null"].map(|text| json(text).encode());
    let mut output = String::new();
    for frame in &frames {
        let line = write_frame(frame.clone());
        assert_eq!(line.matches('\n').count(), 1);
        output.push_str(&line);
    }
    let lines: Vec<&str> = output.lines().collect();
    assert_eq!(lines, frames);
    for (line, frame) in lines.iter().zip(&frames) {
        assert_eq!(frame_text(line), Some(frame.as_str()));
    }
}

#[test]
fn every_step_carries_the_id_of_its_request() {
    let web = SlackWebClient::new("http://mock", Some("xoxb-test".to_string()));
    let kept = |step: SlackStep| {
        let id = match step {
            SlackStep::Reply(response) => response.id,
            SlackStep::Post { id, .. } => id,
        };
        id.map(|id| id.to_value())
    };
    let expected = Some(value("\"r1\""));
    let id = || Some(json("\"r1\""));
    let message = |channel: &str| ChatPostMessageParams {
        channel: channel.to_string(),
        text: Some("hi".to_string()),
        ..Default::default()
    };
    assert_eq!(kept(start_message(&web, id(), Ok(message("C1")))), expected);
    assert_eq!(kept(start_message(&web, id(), Ok(message("")))), expected);
    assert_eq!(kept(start_message(&web, id(), Err("x".to_string()))), expected);
    let dm = || SendDmParams {
        user_id: "U1".to_string(),
        text: Some("hi".to_string()),
        blocks: None,
    };
    assert_eq!(kept(start_dm(&web, id(), Ok(dm()))), expected);
    assert_eq!(kept(start_dm(&web, id(), Ok(SendDmParams::default()))), expected);
    assert_eq!(kept(start_dm(&web, None, Ok(dm()))), None);
}

#[test]
fn lines_are_served_passed_over_or_end_the_input() {
    let decoded = || Some(request("$/ping", None));
    match read_frame(Some("{}\n"), decoded()) {
        Input::Serve(request) => assert_eq!(request.method, "$/ping"),
        other => panic!("expected a request, got {other:?}"),
    }
    assert!(matches!(read_frame(Some("not json\n"), None), Input::Skip));
    assert!(matches!(read_frame(Some(" \r\n"), None), Input::Skip));
    assert!(matches!(read_frame(Some(" \r\n"), decoded()), Input::Skip));
    assert!(matches!(read_frame(None, None), Input::End));
    assert!(matches!(read_frame(None, decoded()), Input::End));
}

#[test]
fn main_emits_manifest_without_credentials() {
    let printed = manifest("animus-trigger-slack", "0.2.0", "Slack.", "1.0").encode();
    let manifest = value(&printed);
    assert_eq!(manifest["name"], "animus-trigger-slack");
    assert_eq!(manifest["plugin_kind"], "trigger_backend");
}

#[test]
fn manifest_advertises_outbound_methods() {
    let manifest = manifest("animus-trigger-slack", "0.2.0", "Slack.", "1.0").to_value();
    let caps = manifest["capabilities"]
        .as_array()
        .expect("capabilities array");
    let names: Vec<&str> = caps.iter().filter_map(|v| v.as_str()).collect();
    assert!(names.contains(&"slack/chat_post_message"));
    assert!(names.contains(&"slack/chat_post_ephemeral"));
    assert!(names.contains(&"slack/send_dm"));
    assert!(names.contains(&"trigger/watch"));
    let mut listed: Vec<String> = names.iter().map(|name| name.to_string()).collect();
    let mut advertised = compute_capabilities(&backend().schema()).methods;
    listed.sort();
    advertised.sort();
    assert_eq!(listed, advertised);
}

#[test]
fn the_manifest_is_exact() {
    let expected = r#"{
        "name": "n",
        "version": "v",
        "plugin_kind": "trigger_backend",
        "description": "d",
        "protocol_version": "p",
        "capabilities": [
            "trigger/watch",
            "trigger/schema",
            "trigger/ack",
            "health/check",
            "slack/chat_post_message",
            "slack/chat_post_ephemeral",
            "slack/send_dm"
        ],
        "env_required": [
            {
                "name": "SLACK_APP_TOKEN",
                "description": "Socket Mode app-level token.",
                "sensitive": true,
                "required": true
            },
            {
                "name": "SLACK_BOT_TOKEN",
                "description": "Bot user OAuth token.",
                "sensitive": true,
                "required": true
            },
            {
                "name": "SLACK_FILTER_CHANNELS",
                "description": "Comma-separated channel IDs to listen on.",
                "required": false
            },
            {
                "name": "SLACK_API_BASE",
                "description": "Override the Slack Web API base URL.",
                "required": false
            }
        ]
    }"#;
    assert_eq!(manifest("n", "v", "d", "p").to_value(), value(expected));
}

#[test]
fn the_manifest_is_asked_for_by_an_argument() {
    let asked = |arguments: &[&str]| {
        manifest_requested(&arguments.iter().map(|a| a.to_string()).collect::<Vec<String>>())
    };
    assert!(asked(&["p", "--manifest"]));
    assert!(asked(&["p", "x", "-m"]));
    assert!(!asked(&["--manifest"]));
    assert!(!asked(&["p", "--manifests", "m"]));
    assert!(!asked(&[]));
}
