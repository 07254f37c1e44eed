use animus_trigger_slack::dispatch::{
    resume, resume_with, start_dm, start_ephemeral, start_message, HttpReply, Next, SlackStep,
    METHOD_SLACK_CHAT_POST_EPHEMERAL, METHOD_SLACK_CHAT_POST_MESSAGE, METHOD_SLACK_SEND_DM,
};
use animus_trigger_slack::json::Json;
use animus_trigger_slack::web_api::{
    judge, unread_reply, ApiRequest, ChatPostEphemeralParams, ChatPostMessageParams, PendingDm,
    SendDmParams, SlackApiError, SlackWebClient,
};
use serde_json::Value;

fn json(text: &str) -> Json {
    Json::parse(text).expect("test JSON")
}

fn value(text: &str) -> Value {
    serde_json::from_str(text).expect("test JSON")
}

fn client_for(base: &str) -> SlackWebClient {
    SlackWebClient::new(base, Some("xoxb-test".to_string()))
}

/// What Slack answers with status 200.
fn answer(text: &str) -> Result<Value, SlackApiError> {
    SlackWebClient::read_reply(200, text).map(|json| json.to_value())
}

/// Whether every member of `part` is in `body` as it is.
fn assert_body_has(request: &ApiRequest, part: &str) {
    let body = request.body.to_value();
    for (name, expected) in value(part).as_object().expect("an object") {
        assert_eq!(&body[name.as_str()], expected, "member {name}");
    }
}

fn message(channel: &str, text: Option<&str>) -> ChatPostMessageParams {
    ChatPostMessageParams {
        channel: channel.into(),
        text: text.map(String::from),
        ..Default::default()
    }
}

#[test]
fn chat_post_message_returns_ok_body_on_success() {
    let c = client_for("http://mock");
    let request = c
        .chat_post_message(ChatPostMessageParams {
            channel: "C1".into(),
            text: Some("hi".into()),
            thread_ts: None,
            blocks: None,
        })
        .expect("ok");
    assert_eq!(request.url, "http://mock/chat.postMessage");
    assert_eq!(request.bearer, "xoxb-test");
    assert_eq!(request.content_type, "application/json; charset=utf-8");
    assert_body_has(&request, r#"{"channel": "C1", "text": "hi"}"#);
    let v = answer(r#"{"ok": true, "ts": "1715701234.000100", "channel": "C1"}"#).expect("ok");
    assert_eq!(v["ts"], "1715701234.000100");
}

#[test]
fn chat_post_message_maps_slack_error() {
    let c = client_for("http://mock");
    assert!(c.chat_post_message(message("Cmissing", Some("hi"))).is_ok());
    let err = answer(r#"{"ok": false, "error": "channel_not_found"}"#).expect_err("should fail");
    match err {
        SlackApiError::Slack { code, .. } => assert_eq!(code, "channel_not_found"),
        other => panic!("expected SlackApiError::Slack, got {other:?}"),
    }
}

#[test]
fn chat_post_message_requires_channel() {
    let c = client_for("http://example.invalid");
    let err = c
        .chat_post_message(ChatPostMessageParams {
            channel: "".into(),
            text: Some("hi".into()),
            ..Default::default()
        })
        .expect_err("empty channel rejected");
    assert!(matches!(err, SlackApiError::InvalidRequest(_)));
}

#[test]
fn chat_post_message_requires_text_or_blocks() {
    let c = client_for("http://example.invalid");
    let err = c
        .chat_post_message(ChatPostMessageParams {
            channel: "C1".into(),
            text: None,
            thread_ts: None,
            blocks: None,
        })
        .expect_err("missing body rejected");
    assert!(matches!(err, SlackApiError::InvalidRequest(_)));
}

#[test]
fn chat_post_message_propagates_thread_ts_and_blocks() {
    let c = client_for("http://mock");
    let request = c
        .chat_post_message(ChatPostMessageParams {
            channel: "C1".into(),
            text: Some("threaded".into()),
            thread_ts: Some("1715701234.000100".into()),
            blocks: Some(json(r#"[{ "type": "section" }]"#)),
        })
        .expect("ok");
    assert_body_has(
        &request,
        r#"{
            "channel": "C1",
            "thread_ts": "1715701234.000100",
            "blocks": [{"type": "section"}]
        }"#,
    );
    assert!(answer(r#"{"ok": true, "ts": "1715701234.000200"}"#).is_ok());
}

#[test]
fn chat_post_ephemeral_requires_user() {
    let c = client_for("http://example.invalid");
    let err = c
        .chat_post_ephemeral(ChatPostEphemeralParams {
            channel: "C1".into(),
            user: "".into(),
            text: "hi".into(),
            blocks: None,
        })
        .expect_err("empty user rejected");
    assert!(matches!(err, SlackApiError::InvalidRequest(_)));
}

#[test]
fn chat_post_ephemeral_returns_message_ts_on_success() {
    let c = client_for("http://mock");
    let request = c
        .chat_post_ephemeral(ChatPostEphemeralParams {
            channel: "C1".into(),
            user: "U1".into(),
            text: "psst".into(),
            blocks: None,
        })
        .expect("ok");
    assert_eq!(request.url, "http://mock/chat.postEphemeral");
    assert_body_has(&request, r#"{"channel": "C1", "user": "U1", "text": "psst"}"#);
    let v = answer(r#"{"ok": true, "message_ts": "1715701234.000100"}"#).expect("ok");
    assert_eq!(v["message_ts"], "1715701234.000100");
}

#[test]
fn conversations_open_im_returns_channel_id() {
    let c = client_for("http://mock");
    let request = c.conversations_open_im("U1").expect("ok");
    assert_eq!(request.url, "http://mock/conversations.open");
    assert_body_has(&request, r#"{"users": "U1"}"#);
    let v = answer(r#"{"ok": true, "channel": {"id": "D123"}}"#).expect("ok");
    assert_eq!(v["channel"]["id"], "D123");
}

/// Sends a direct message: `opened` answers the first request, and the second
/// request is returned.
fn dm(c: &SlackWebClient, params: SendDmParams, opened: &str) -> ApiRequest {
    let (open, pending) = c.send_dm(params).expect("a channel is asked for");
    assert!(open.url.ends_with("/conversations.open"));
    let opened = SlackWebClient::read_reply(200, opened).expect("ok");
    let post = c.finish_dm(pending, &opened).expect("the message is posted");
    assert!(post.url.ends_with("/chat.postMessage"));
    post
}

#[test]
fn web_api_send_dm_opens_im_then_posts() {
    let c = client_for("http://mock");
    let post = dm(
        &c,
        SendDmParams {
            user_id: "U1".into(),
            text: Some("ping".into()),
            blocks: None,
        },
        r#"{"ok": true, "channel": {"id": "D123"}}"#,
    );
    assert_body_has(&post, r#"{"channel": "D123", "text": "ping"}"#);
    let v = answer(r#"{"ok": true, "ts": "1715701234.000100"}"#).expect("ok");
    assert_eq!(v["ts"], "1715701234.000100");
}

#[test]
fn send_dm_accepts_blocks_only() {
    let c = client_for("http://mock");
    let post = dm(
        &c,
        SendDmParams {
            user_id: "U2".into(),
            text: None,
            blocks: Some(json(r#"[{ "type": "section" }]"#)),
        },
        r#"{"ok": true, "channel": {"id": "D456"}}"#,
    );
    assert_body_has(&post, r#"{"channel": "D456", "blocks": [{"type": "section"}]}"#);
    let v = answer(r#"{"ok": true, "ts": "1715701234.000400"}"#).expect("blocks-only DM");
    assert_eq!(v["ts"], "1715701234.000400");
}

#[test]
fn send_dm_requires_body() {
    let c = client_for("http://example.invalid");
    let err = c
        .send_dm(SendDmParams {
            user_id: "U1".into(),
            text: None,
            blocks: None,
        })
        .expect_err("missing body rejected");
    assert!(matches!(err, SlackApiError::InvalidRequest(_)));
}

#[test]
fn missing_bot_token_errors() {
    let client = SlackWebClient::new("http://mock", None);
    let err = client
        .chat_post_message(ChatPostMessageParams {
            channel: "C1".into(),
            text: Some("hi".into()),
            ..Default::default()
        })
        .expect_err("missing token rejected");
    assert!(matches!(err, SlackApiError::MissingBotToken));
}

#[test]
fn non_2xx_maps_to_http_error() {
    let c = client_for("http://mock");
    let request = c
        .chat_post_message(ChatPostMessageParams {
            channel: "C1".into(),
            text: Some("hi".into()),
            ..Default::default()
        })
        .expect("sent");
    assert_eq!(request.url, "http://mock/chat.postMessage");
    let err =
        SlackWebClient::read_reply(503, "temporarily unavailable").expect_err("should fail");
    match err {
        SlackApiError::Http { status, body } => {
            assert_eq!(status, 503);
            assert_eq!(body, "temporarily unavailable");
        }
        other => panic!("expected Http error, got {other:?}"),
    }
}

#[test]
fn chat_post_message_round_trip() {
    let c = client_for("http://mock");
    let request = c
        .chat_post_message(ChatPostMessageParams {
            channel: "C1".into(),
            text: Some("ship it".into()),
            thread_ts: None,
            blocks: None,
        })
        .expect("post");
    assert_eq!(request.url, "http://mock/chat.postMessage");
    assert_eq!(request.bearer, "xoxb-test");
    let result = answer(r#"{"ok": true, "ts": "1715701234.000100", "channel": "C1"}"#).expect("post");
    assert_eq!(result["ts"], "1715701234.000100");
}

#[test]
fn chat_post_message_in_thread() {
    let c = client_for("http://mock");
    let request = c
        .chat_post_message(ChatPostMessageParams {
            channel: "C1".into(),
            text: Some("re: shipping".into()),
            thread_ts: Some("1715701234.000100".into()),
            blocks: None,
        })
        .expect("post");
    assert_body_has(&request, r#"{"channel": "C1", "thread_ts": "1715701234.000100"}"#);
    let result = answer(r#"{"ok": true, "ts": "1715701234.000200"}"#).expect("post");
    assert_eq!(result["ts"], "1715701234.000200");
}

#[test]
fn chat_post_ephemeral_round_trip() {
    let c = client_for("http://mock");
    let request = c
        .chat_post_ephemeral(ChatPostEphemeralParams {
            channel: "C1".into(),
            user: "U1".into(),
            text: "psst".into(),
            blocks: None,
        })
        .expect("post");
    assert_eq!(request.url, "http://mock/chat.postEphemeral");
    assert_body_has(&request, r#"{"channel": "C1", "user": "U1", "text": "psst"}"#);
    let result = answer(r#"{"ok": true, "message_ts": "1715701234.000100"}"#).expect("post");
    assert_eq!(result["message_ts"], "1715701234.000100");
}

#[test]
fn outbound_send_dm_opens_im_then_posts() {
    let c = client_for("http://mock");
    let post = dm(
        &c,
        SendDmParams {
            user_id: "U1".into(),
            text: Some("ready for review".into()),
            blocks: None,
        },
        r#"{"ok": true, "channel": {"id": "D123"}}"#,
    );
    assert_body_has(&post, r#"{"channel": "D123", "text": "ready for review"}"#);
    let result = answer(r#"{"ok": true, "ts": "1715701234.000300"}"#).expect("send_dm");
    assert_eq!(result["ts"], "1715701234.000300");
}

#[test]
fn slack_error_maps_to_slack_variant() {
    let c = client_for("http://mock");
    assert!(c
        .chat_post_message(message("C-not-joined", Some("ping")))
        .is_ok());
    let err = answer(r#"{"ok": false, "error": "not_in_channel"}"#).expect_err("should fail");
    match err {
        SlackApiError::Slack { code, .. } => assert_eq!(code, "not_in_channel"),
        other => panic!("expected SlackApiError::Slack, got {other:?}"),
    }
}

#[test]
fn http_error_maps_to_http_variant() {
    let c = client_for("http://mock");
    let request = c
        .chat_post_message(ChatPostMessageParams {
            channel: "C1".into(),
            text: Some("ping".into()),
            thread_ts: None,
            blocks: None,
        })
        .expect("sent");
    assert_eq!(request.url, "http://mock/chat.postMessage");
    let err = SlackWebClient::read_reply(429, "rate limited").expect_err("should fail");
    match err {
        SlackApiError::Http { status, .. } => assert_eq!(status, 429),
        other => panic!("expected Http error, got {other:?}"),
    }
}

#[test]
fn invalid_request_caught_before_http() {
    let c = client_for("http://example.invalid");
    let err = c
        .chat_post_message(ChatPostMessageParams {
            channel: "".into(),
            text: Some("hi".into()),
            thread_ts: None,
            blocks: None,
        })
        .expect_err("empty channel rejected");
    assert!(matches!(err, SlackApiError::InvalidRequest(_)));
}

#[test]
fn missing_bot_token_short_circuits() {
    let c = SlackWebClient::new("http://example.invalid", None);
    let err = c
        .chat_post_message(ChatPostMessageParams {
            channel: "C1".into(),
            text: Some("hi".into()),
            thread_ts: None,
            blocks: None,
        })
        .expect_err("missing token rejected");
    assert!(matches!(err, SlackApiError::MissingBotToken));
}

#[test]
fn outbound_method_constants_are_namespaced() {
    assert_eq!(METHOD_SLACK_CHAT_POST_MESSAGE, "slack/chat_post_message");
    assert_eq!(
        METHOD_SLACK_CHAT_POST_EPHEMERAL,
        "slack/chat_post_ephemeral"
    );
    assert_eq!(METHOD_SLACK_SEND_DM, "slack/send_dm");
}

fn refusal(result: Result<ApiRequest, SlackApiError>) -> String {
    match result {
        Err(SlackApiError::InvalidRequest(reason)) => reason,
        other => panic!("expected a refusal, got {other:?}"),
    }
}

#[test]
fn refusals_say_why() {
    // The client has no token: a refusal comes first.
    let c = SlackWebClient::new("http://mock", Some(String::new()));
    assert_eq!(refusal(c.chat_post_message(message(" \t", None))), "channel must not be empty");
    let bare = "either text or blocks must be provided";
    assert_eq!(refusal(c.chat_post_message(message("C1", Some("")))), bare);
    let mut ephemeral = ChatPostEphemeralParams::default();
    assert_eq!(refusal(c.chat_post_ephemeral(ephemeral.clone())), "channel must not be empty");
    ephemeral.channel = "C1".into();
    assert_eq!(refusal(c.chat_post_ephemeral(ephemeral.clone())), "user must not be empty");
    ephemeral.user = "U1".into();
    assert_eq!(refusal(c.chat_post_ephemeral(ephemeral.clone())), bare);
    ephemeral.blocks = Some(json("[]"));
    assert!(matches!(c.chat_post_ephemeral(ephemeral), Err(SlackApiError::MissingBotToken)));
    assert_eq!(refusal(c.conversations_open_im("\u{a0}")), "user_id must not be empty");
    let mut dm = SendDmParams::default();
    assert_eq!(refusal(c.send_dm(dm.clone()).map(|(request, _)| request)), bare);
    dm.text = Some("hi".into());
    let reason = refusal(c.send_dm(dm.clone()).map(|(request, _)| request));
    assert_eq!(reason, "user_id must not be empty");
    dm.user_id = "U1".into();
    assert!(matches!(c.send_dm(dm), Err(SlackApiError::MissingBotToken)));
}

#[test]
fn a_message_holds_what_was_given_and_nothing_more() {
    let c = client_for("http://mock/api/");
    let request = c.chat_post_message(message("#general", Some("hi"))).expect("ok");
    assert_eq!(request.url, "http://mock/api/chat.postMessage");
    assert_eq!(request.body.to_value(), value(r##"{"channel": "#general", "text": "hi"}"##));
    let blocks_only = ChatPostMessageParams {
        text: Some(String::new()),
        blocks: Some(json("null")),
        ..message("C1", None)
    };
    let request = c.chat_post_message(blocks_only).expect("ok");
    assert_eq!(
        request.body.to_value(),
        value(r#"{"channel": "C1", "text": "", "blocks": null}"#)
    );
}

#[test]
fn the_base_url_loses_its_slashes() {
    let c = client_for("http://mock//");
    let request = c.clone().conversations_open_im("U1").expect("ok");
    assert_eq!(request.url, "http://mock/conversations.open");
    assert_eq!(request.body.encode(), r#"{"users":"U1"}"#);
}

#[test]
fn an_answer_that_is_not_json_is_a_decode_failure() {
    let err = SlackWebClient::read_reply(204, "oops").expect_err("should fail");
    match err {
        SlackApiError::Decode(message) => {
            assert_eq!(message, "expected value at line 1 column 1: oops");
        }
        other => panic!("expected Decode error, got {other:?}"),
    }
}

#[test]
fn only_2xx_is_success() {
    let ok = r#"{"ok": true}"#;
    for status in [200, 201, 299] {
        assert!(SlackWebClient::read_reply(status, ok).is_ok(), "{status}");
    }
    for status in [0, 199, 300, 302, 404, 65535] {
        let err = SlackWebClient::read_reply(status, ok).expect_err("should fail");
        assert_eq!(err.message(), format!("slack http {status}: {ok}"));
    }
}

#[test]
fn an_answer_without_ok_is_a_slack_error() {
    for text in ["{}", r#"{"ok": "true"}"#, r#"{"ok": 1}"#, "[true]", "null"] {
        match judge(json(text)) {
            Err(SlackApiError::Slack { code, body }) => {
                assert_eq!(code, "unknown");
                assert_eq!(body.to_value(), value(text));
            }
            other => panic!("expected SlackApiError::Slack, got {other:?}"),
        }
    }
}

#[test]
fn failures_have_words() {
    let of = |error: SlackApiError| error.message();
    assert_eq!(of(SlackApiError::InvalidRequest("x".into())), "invalid request: x");
    assert_eq!(of(SlackApiError::MissingBotToken), "SLACK_BOT_TOKEN unset");
    let slack = SlackApiError::Slack { code: "c".into(), body: json("{}") };
    assert_eq!(of(slack), "slack api error: c");
    assert_eq!(of(SlackApiError::Transport("t".into())), "slack transport: t");
    assert_eq!(of(SlackApiError::Decode("d".into())), "slack decode: d");
}

#[test]
fn a_channel_that_is_not_named_ends_a_direct_message() {
    let c = client_for("http://mock");
    for opened in [r#"{"ok": true}"#, r#"{"channel": {"id": 5}}"#, r#"{"channel": "D1"}"#] {
        let pending = PendingDm { text: Some("hi".into()), blocks: None };
        match c.finish_dm(pending, &json(opened)) {
            Err(SlackApiError::Decode(message)) => {
                assert_eq!(message, "conversations.open response missing channel.id");
            }
            other => panic!("expected Decode error, got {other:?}"),
        }
    }
    let pending = PendingDm { text: Some("hi".into()), blocks: None };
    let blank = c.finish_dm(pending, &json(r#"{"channel": {"id": " "}}"#));
    assert_eq!(refusal(blank), "channel must not be empty");
}

#[test]
fn copies_of_parameters_are_equal() {
    let given = ChatPostMessageParams {
        thread_ts: Some("1.0".into()),
        blocks: Some(json(r#"[{"n": 1.5}, [null, true]]"#)),
        ..message("C1", Some("hi"))
    };
    let copy = given.clone();
    assert_eq!(copy.channel, "C1");
    assert_eq!(copy.text.as_deref(), Some("hi"));
    assert_eq!(copy.thread_ts.as_deref(), Some("1.0"));
    assert_eq!(
        copy.blocks.expect("blocks").to_value(),
        given.blocks.expect("blocks").to_value()
    );
}

fn id() -> Option<Json> {
    Some(json("7"))
}

/// The response of a step, as its id and its result or error data.
fn reply(step: SlackStep) -> (Option<Value>, Result<Value, (i32, String, Option<Value>)>) {
    match step {
        SlackStep::Reply(response) => (
            response.id.map(|id| id.to_value()),
            match response.outcome {
                Ok(result) => Ok(result.to_value()),
                Err(error) => Err((
                    error.code,
                    error.message,
                    error.data.map(|data| data.to_value()),
                )),
            },
        ),
        other => panic!("expected a reply, got {other:?}"),
    }
}

fn post(step: SlackStep) -> (ApiRequest, Next) {
    match step {
        SlackStep::Post { id, request, next } => {
            assert_eq!(id.map(|id| id.to_value()), Some(value("7")));
            (request, next)
        }
        other => panic!("expected a request, got {other:?}"),
    }
}

fn http(text: &str) -> Result<HttpReply, String> {
    Ok(HttpReply { status: 200, text: Ok(text.to_string()) })
}

#[test]
fn a_posted_message_is_answered_with_slacks_answer() {
    let c = client_for("http://mock");
    let (request, next) = post(start_message(&c, id(), Ok(message("C1", Some("hi")))));
    assert_eq!(request.url, "http://mock/chat.postMessage");
    let body = r#"{"ok": true, "ts": "1.0", "extra": [1]}"#;
    let (kept, result) = reply(resume(&c, id(), next, http(body)));
    assert_eq!(kept, Some(value("7")));
    assert_eq!(result, Ok(value(body)));
}

#[test]
fn a_direct_message_takes_two_requests() {
    let c = client_for("http://mock");
    let params = SendDmParams { user_id: "U1".into(), text: Some("hi".into()), blocks: None };
    let (open, next) = post(start_dm(&c, id(), Ok(params)));
    assert_eq!(open.body.encode(), r#"{"users":"U1"}"#);
    let opened = http(r#"{"ok": true, "channel": {"id": "D1"}}"#);
    let (request, next) = post(resume(&c, id(), next, opened));
    assert_eq!(request.body.to_value(), value(r#"{"channel": "D1", "text": "hi"}"#));
    let (_, result) = reply(resume(&c, id(), next, http(r#"{"ok": true, "ts": "2.0"}"#)));
    assert_eq!(result, Ok(value(r#"{"ok": true, "ts": "2.0"}"#)));
}

#[test]
fn a_direct_message_ends_where_its_channel_does_not_open() {
    let c = client_for("http://mock");
    let params = SendDmParams { user_id: "U1".into(), text: Some("hi".into()), blocks: None };
    let (_, next) = post(start_dm(&c, id(), Ok(params)));
    let refused = http(r#"{"ok": false, "error": "user_not_found"}"#);
    let (_, result) = reply(resume(&c, id(), next, refused));
    let (code, message, data) = result.expect_err("should fail");
    assert_eq!(code, -32603);
    assert_eq!(message, "slack api error: user_not_found");
    assert_eq!(data.expect("data")["category"], "slack_error");
    let pending = PendingDm { text: None, blocks: Some(json("[]")) };
    let (_, result) = reply(resume_with(&c, id(), Next::PostDm(pending), Ok(json("{}"))));
    assert_eq!(result.expect_err("should fail").2, Some(value(r#"{"category": "decode"}"#)));
}

#[test]
fn a_transport_failure_is_answered() {
    let c = client_for("http://mock");
    let params = ChatPostEphemeralParams {
        channel: "C1".into(),
        user: "U1".into(),
        text: "psst".into(),
        blocks: None,
    };
    let (_, next) = post(start_ephemeral(&c, id(), Ok(params)));
    let (kept, result) = reply(resume(&c, id(), next, Err("timed out".to_string())));
    assert_eq!(kept, Some(value("7")));
    let (code, message, data) = result.expect_err("should fail");
    assert_eq!(code, -32603);
    assert_eq!(message, "slack transport: timed out");
    assert_eq!(data, Some(value(r#"{"category": "transport"}"#)));
}

#[test]
fn a_body_that_cannot_be_read_keeps_its_status() {
    let c = client_for("http://mock");
    let unread = |status: u16| {
        let (_, next) = post(start_message(&c, id(), Ok(message("C1", Some("hi")))));
        let text = Err("connection reset".to_string());
        let (_, result) = reply(resume(&c, id(), next, Ok(HttpReply { status, text })));
        result.expect_err("should fail")
    };
    let (code, message, data) = unread(503);
    assert_eq!(code, -32603);
    assert_eq!(message, "slack http 503");
    assert_eq!(data, Some(value(r#"{"category": "http", "status": 503, "body": ""}"#)));
    let (_, message, data) = unread(200);
    assert_eq!(message, "slack transport: connection reset");
    assert_eq!(data, Some(value(r#"{"category": "transport"}"#)));
    match unread_reply(404, "x".to_string()) {
        SlackApiError::Http { status, body } => assert_eq!((status, body.as_str()), (404, "")),
        other => panic!("expected Http error, got {other:?}"),
    }
    assert!(matches!(unread_reply(299, "x".to_string()), SlackApiError::Transport(_)));
}

#[test]
fn slashes_at_the_end_of_the_base_make_no_difference() {
    let body = || json(r#"{"a": 1}"#);
    let plain = client_for("http://mock/api").post_json("x.y", body()).expect("ok");
    for base in ["http://mock/api/", "http://mock/api///"] {
        let request = client_for(base).post_json("x.y", body()).expect("ok");
        assert_eq!(request.url, "http://mock/api/x.y");
        assert_eq!(request.url, plain.url);
        assert_eq!(request.bearer, plain.bearer);
        assert_eq!(request.body.to_value(), plain.body.to_value());
    }
    for token in [None, Some(String::new())] {
        let result = SlackWebClient::new("http://mock", token).post_json("x.y", body());
        assert!(matches!(result, Err(SlackApiError::MissingBotToken)));
    }
}

#[test]
fn what_is_refused_or_does_not_decode_is_answered_at_once() {
    let c = client_for("http://mock");
    let (_, result) = reply(start_message(&c, id(), Ok(message("", Some("hi")))));
    let (code, message, data) = result.expect_err("should fail");
    assert_eq!(code, -32602);
    assert_eq!(message, "channel must not be empty");
    assert_eq!(data, Some(value(r#"{"category": "invalid_request"}"#)));
    let (kept, result) = reply(start_dm(&c, None, Err("missing field `user_id`".to_string())));
    assert_eq!(kept, None);
    let (code, message, data) = result.expect_err("should fail");
    assert_eq!(code, -32602);
    assert_eq!(message, "invalid params: missing field `user_id`");
    assert_eq!(data, None);
    let (_, result) = reply(start_ephemeral(&c, id(), Err("x".to_string())));
    assert_eq!(result.expect_err("should fail").1, "invalid params: x");
    let (_, result) = reply(start_message(&c, id(), Err("y".to_string())));
    assert_eq!(result.expect_err("should fail").1, "invalid params: y");
    let tokenless = SlackWebClient::new("http://mock", None);
    let params = SendDmParams { user_id: "U1".into(), text: Some("hi".into()), blocks: None };
    let (_, result) = reply(start_dm(&tokenless, id(), Ok(params)));
    let (_, message, data) = result.expect_err("should fail");
    assert_eq!(message, "SLACK_BOT_TOKEN unset");
    assert_eq!(data, Some(value(r#"{"category": "missing_token"}"#)));
}
