use animus_trigger_slack::config::SlackConfig;
use animus_trigger_slack::json::Json;
use animus_trigger_slack::socket::{
    after_cycle, handle_envelope, handle_frame, handle_frame_at, on_message, read_socket_url,
    socket_url_request, AppsConnectionsOpenResponse, FrameOutcome, Reconnect, SocketAction,
    SocketError, SocketMessage, Verdict,
};
use animus_trigger_slack::socket_loop::{
    advance, advance_at, is_awaited, start, LoopAction, LoopEvent, LoopState, UrlReply,
};
use animus_trigger_slack::time::Timestamp;

const NOW: Timestamp = Timestamp { secs: 1_700_000_000, nanos: 5 };

fn config() -> SlackConfig {
    SlackConfig::for_testing("http://mock")
}

fn answer(ok: bool, url: Option<&str>, error: Option<&str>) -> AppsConnectionsOpenResponse {
    AppsConnectionsOpenResponse {
        ok,
        url: url.map(String::from),
        error: error.map(String::from),
    }
}

#[test]
fn fetch_socket_url_returns_url_on_ok() {
    let request = socket_url_request(&config()).expect("a token");
    assert_eq!(request.url, "http://mock/apps.connections.open");
    assert_eq!(request.bearer, "xapp-test");
    assert_eq!(request.content_type, "application/x-www-form-urlencoded");
    let body = r#"{"ok": true, "url": "wss://wss-primary.slack.com/link/?token=abc"}"#;
    let decoded = answer(true, Some("wss://wss-primary.slack.com/link/?token=abc"), None);
    let url = read_socket_url(200, body, Some(decoded)).expect("should succeed");
    assert!(url.starts_with("wss://"));
}

#[test]
fn fetch_socket_url_errors_on_not_ok() {
    let body = r#"{"ok": false, "error": "invalid_auth"}"#;
    let decoded = answer(false, None, Some("invalid_auth"));
    let error = read_socket_url(200, body, Some(decoded)).expect_err("should fail");
    assert!(
        error.message().contains("invalid_auth"),
        "expected invalid_auth, got {error:?}"
    );
}

#[test]
fn fetch_socket_url_errors_on_http_500() {
    let error = read_socket_url(500, "boom", None).expect_err("should fail");
    assert!(
        error.message().contains("500"),
        "expected status 500 in error: {error:?}"
    );
}

#[test]
fn socket_failures_have_words() {
    let failure = |status: u16, body: &str, decoded: Option<AppsConnectionsOpenResponse>| {
        read_socket_url(status, body, decoded)
            .expect_err("should fail")
            .message()
    };
    assert_eq!(
        failure(500, "boom", Some(answer(true, Some("wss://x"), None))),
        "apps.connections.open returned HTTP 500 Internal Server Error: boom"
    );
    assert_eq!(
        failure(999, "", None),
        "apps.connections.open returned HTTP 999 <unknown status code>: "
    );
    assert_eq!(failure(200, "<html>", None), "apps.connections.open body: <html>");
    assert_eq!(
        failure(200, "", Some(answer(false, Some("wss://x"), None))),
        "apps.connections.open ok=false: unknown"
    );
    assert_eq!(
        failure(299, "", Some(answer(true, None, Some("e")))),
        "apps.connections.open missing url"
    );
    let tokenless = SlackConfig::default();
    let error = socket_url_request(&tokenless).expect_err("no token");
    assert_eq!(error.message(), "SLACK_APP_TOKEN required");
    assert_eq!(SocketError::Disconnect.message(), "slack requested disconnect");
    assert_eq!(SocketError::ChannelClosed.message(), "trigger event channel closed");
    assert_eq!(SocketError::Transport("POST u".to_string()).message(), "POST u");
    assert_eq!(SocketError::Connect("wss://x".to_string()).message(), "connect_async(wss://x)");
    assert_eq!(SocketError::Read.message(), "websocket read");
    assert_eq!(SocketError::Pong.message(), "send pong");
    assert_eq!(SocketError::Closed.message(), "slack closed socket");
}

#[test]
fn delays_double_up_to_a_minute() {
    let mut backoff = 1;
    let mut waits = Vec::new();
    for _ in 0..8 {
        let then = after_cycle(backoff, false);
        waits.push(then.wait);
        backoff = then.backoff;
    }
    assert_eq!(waits, [1, 2, 4, 8, 16, 32, 60, 60]);
    assert_eq!(after_cycle(60, true), Reconnect { wait: 1, backoff: 1 });
    assert_eq!(after_cycle(u64::MAX, false), Reconnect { wait: u64::MAX, backoff: 60 });
    assert_eq!(after_cycle(30, false).backoff, 60);
    assert_eq!(after_cycle(31, false).backoff, 60);
    assert_eq!(after_cycle(0, false).backoff, 0);
}

fn frame(text: &str, config: &SlackConfig) -> FrameOutcome {
    handle_frame_at(text, config, NOW)
}

fn mention(channel: &str) -> String {
    format!(
        r#"{{"envelope_id": "E1", "type": "events_api", "payload": {{"type": "event_callback",
            "event": {{"type": "app_mention", "team": "T1", "channel": "{channel}",
            "ts": "12.5"}}}}}}"#
    )
}

#[test]
fn a_mention_is_acked_and_emitted() {
    let outcome = frame(&mention("C1"), &config());
    assert_eq!(outcome.ack.as_deref(), Some(r#"{"envelope_id":"E1"}"#));
    match outcome.verdict {
        Verdict::Emit(event) => {
            assert_eq!(event.id, "slack:T1/C1/12.5");
            assert_eq!(event.kind, "slack.mention");
            assert_eq!(event.occurred_at, Timestamp { secs: 12, nanos: 500_000_000 });
        }
        other => panic!("expected an event, got {other:?}"),
    }
    match handle_frame(&mention("C1"), &config()).verdict {
        Verdict::Emit(event) => assert_eq!(event.id, "slack:T1/C1/12.5"),
        other => panic!("expected an event, got {other:?}"),
    }
}

#[test]
fn an_event_of_a_filtered_channel_is_acked_and_skipped() {
    let mut filtered = config();
    filtered.filter_channels = vec!["C2".to_string()];
    let outcome = frame(&mention("C1"), &filtered);
    assert_eq!(outcome.ack.as_deref(), Some(r#"{"envelope_id":"E1"}"#));
    assert!(matches!(outcome.verdict, Verdict::Skip));
    assert!(matches!(frame(&mention("C2"), &filtered).verdict, Verdict::Emit(_)));
    // An event that names no channel passes.
    assert!(matches!(frame(&mention(""), &filtered).verdict, Verdict::Emit(_)));
    let unnamed = r#"{"type": "events_api", "payload": {"event": {"type": "app_mention"}}}"#;
    let outcome = frame(unnamed, &filtered);
    assert_eq!(outcome.ack, None);
    match outcome.verdict {
        Verdict::Emit(event) => {
            assert_eq!(event.id, "slack:unknown/unknown/0");
            // Its `ts` is missing.
            assert_eq!(event.occurred_at, NOW);
        }
        other => panic!("expected an event, got {other:?}"),
    }
}

#[test]
fn every_envelope_with_an_id_is_acked() {
    let ack = |kind: &str| {
        frame(&format!(r#"{{"type": "{kind}", "envelope_id": "a\"bé"}}"#), &config()).ack
    };
    let expected = Some("{\"envelope_id\":\"a\\\"b\u{e9}\"}".to_string());
    assert_eq!(ack("events_api"), expected);
    assert_eq!(ack("slash_commands"), expected);
    assert_eq!(ack("interactive"), expected);
    assert_eq!(ack("block_suggestion"), expected);
    assert_eq!(ack("hello"), expected);
    assert_eq!(ack("disconnect"), expected);
    assert_eq!(ack(""), expected);
    let read = Json::parse(&expected.expect("an ack")).expect("an ack is JSON");
    assert_eq!(read.text_at("envelope_id"), Some("a\"b\u{e9}"));
}

#[test]
fn other_frames_are_passed_over() {
    for text in [
        "not json",
        "",
        "[]",
        "{}",
        r#"{"type": "hello", "num_connections": 1}"#,
        r#"{"type": 1, "envelope_id": 1}"#,
        r#"{"type": "events_api"}"#,
        r#"{"type": "events_api", "payload": {}}"#,
        r#"{"type": "events_api", "payload": {"event": {"type": "reaction_added"}}}"#,
        r#"{"type": "interactive", "payload": {"event": {"type": "app_mention"}}}"#,
    ] {
        let outcome = frame(text, &config());
        assert_eq!(outcome.ack, None, "{text}");
        assert!(matches!(outcome.verdict, Verdict::Skip), "{text}");
    }
    let outcome = frame(r#"{"type": "disconnect", "reason": "warning"}"#, &config());
    assert_eq!(outcome.ack, None);
    assert!(matches!(outcome.verdict, Verdict::Disconnect));
    let outcome = frame(r#"{"envelope_id":"E1","type":"block_suggestion"}"#, &config());
    assert_eq!(outcome.ack.as_deref(), Some(r#"{"envelope_id":"E1"}"#));
    assert!(matches!(outcome.verdict, Verdict::Skip));
}

#[test]
fn an_envelope_that_is_already_read_is_handled_alike() {
    let envelope = Json::parse(&mention("C1")).expect("test JSON");
    let outcome = handle_envelope(&envelope, &config(), NOW);
    assert_eq!(outcome.ack.as_deref(), Some(r#"{"envelope_id":"E1"}"#));
    assert!(matches!(outcome.verdict, Verdict::Emit(_)));
}

#[test]
fn messages_are_told_apart() {
    let on = |message: SocketMessage| on_message(message, &config(), NOW);
    match on(SocketMessage::Ping(vec![1, 2])) {
        SocketAction::SendPong(payload) => assert_eq!(payload, [1, 2]),
        other => panic!("expected a pong, got {other:?}"),
    }
    assert!(matches!(on(SocketMessage::Pong(vec![1])), SocketAction::Ignore));
    assert!(matches!(on(SocketMessage::Binary(vec![1])), SocketAction::Ignore));
    assert!(matches!(on(SocketMessage::Raw), SocketAction::Ignore));
    assert!(matches!(on(SocketMessage::Close), SocketAction::Finish));
    assert!(matches!(on(SocketMessage::Text(mention("C1"))), SocketAction::Frame(_)));
}

/// A loop under test: it holds the state and the last action.
struct Loop {
    config: SlackConfig,
    state: LoopState,
    action: LoopAction,
}

impl Loop {
    fn new(config: SlackConfig) -> Loop {
        let (state, action) = start();
        Loop { config, state, action }
    }

    fn on(&mut self, event: LoopEvent) -> &LoopAction {
        assert!(is_awaited(&self.state, &event), "{:?} on {event:?}", self.state);
        let state = std::mem::replace(&mut self.state, LoopState::Stopped);
        let (state, action) = advance_at(state, event, &self.config, NOW);
        self.state = state;
        self.action = action;
        &self.action
    }

    fn listened(&mut self) -> &LoopAction {
        self.on(LoopEvent::Receiver { closed: false })
    }

    fn url(&mut self, url: &str) -> &LoopAction {
        self.on(LoopEvent::Url(Ok(UrlReply {
            status: 200,
            body: Some(String::new()),
            decoded: Some(answer(true, Some(url), None)),
        })))
    }

    fn connect(&mut self) {
        self.listened();
        self.url("wss://a");
        self.on(LoopEvent::Connected(true));
        assert!(matches!(self.action, LoopAction::Read));
    }

    fn text(&mut self, text: &str) -> &LoopAction {
        self.on(LoopEvent::Message(Some(Ok(SocketMessage::Text(text.to_string())))))
    }

    /// The delay and the reason at the end of a cycle; the loop then begins anew.
    fn ended(&mut self) -> (u64, String) {
        let outcome = match &self.action {
            LoopAction::Sleep { secs, reason } => (*secs, reason.message()),
            other => panic!("expected a delay, got {other:?}"),
        };
        self.on(LoopEvent::Slept);
        assert!(matches!(self.action, LoopAction::CheckReceiver));
        outcome
    }
}

#[test]
fn the_loop_asks_connects_acks_and_delivers() {
    let mut run = Loop::new(config());
    assert!(matches!(run.action, LoopAction::CheckReceiver));
    match run.listened() {
        LoopAction::AskUrl(request) => {
            assert_eq!(request.url, "http://mock/apps.connections.open");
            assert_eq!(request.bearer, "xapp-test");
        }
        other => panic!("expected a request, got {other:?}"),
    }
    match run.url("wss://a") {
        LoopAction::Connect(url) => assert_eq!(url, "wss://a"),
        other => panic!("expected a connection, got {other:?}"),
    }
    run.on(LoopEvent::Connected(true));
    match run.text(&mention("C1")) {
        LoopAction::SendAck(ack) => assert_eq!(ack, r#"{"envelope_id":"E1"}"#),
        other => panic!("expected an ack, got {other:?}"),
    }
    // An ack that is lost does not hold up the event.
    match run.on(LoopEvent::Sent(false)) {
        LoopAction::Deliver(event) => assert_eq!(event.id, "slack:T1/C1/12.5"),
        other => panic!("expected an event, got {other:?}"),
    }
    assert!(matches!(run.on(LoopEvent::Delivered(true)), LoopAction::Read));
    match run.on(LoopEvent::Message(Some(Ok(SocketMessage::Ping(vec![9]))))) {
        LoopAction::SendPong(payload) => assert_eq!(payload, &[9]),
        other => panic!("expected a pong, got {other:?}"),
    }
    assert!(matches!(run.on(LoopEvent::Sent(true)), LoopAction::Read));
    assert!(matches!(run.text("{}"), LoopAction::Read));
    let raw = LoopEvent::Message(Some(Ok(SocketMessage::Raw)));
    assert!(matches!(run.on(raw), LoopAction::Read));
}

#[test]
fn failures_wait_longer_and_a_clean_end_resets_the_delay() {
    let mut run = Loop::new(config());
    run.listened();
    run.on(LoopEvent::Url(Err("POST u".to_string())));
    assert_eq!(run.ended(), (1, "POST u".to_string()));
    run.listened();
    run.on(LoopEvent::Url(Ok(UrlReply { status: 503, body: Some("b".to_string()), decoded: None })));
    assert_eq!(
        run.ended(),
        (2, "apps.connections.open returned HTTP 503 Service Unavailable: b".to_string())
    );
    run.listened();
    run.url("wss://a");
    run.on(LoopEvent::Connected(false));
    assert_eq!(run.ended(), (4, "connect_async(wss://a)".to_string()));
    run.connect();
    run.on(LoopEvent::Message(Some(Err("reset".to_string()))));
    assert_eq!(run.ended(), (8, "websocket read".to_string()));
    run.connect();
    run.text(r#"{"type": "disconnect"}"#);
    assert_eq!(run.ended(), (16, "slack requested disconnect".to_string()));
    run.connect();
    run.on(LoopEvent::Message(Some(Ok(SocketMessage::Ping(vec![])))));
    run.on(LoopEvent::Sent(false));
    assert_eq!(run.ended(), (32, "send pong".to_string()));
    run.connect();
    run.text(&mention("C1"));
    run.on(LoopEvent::Sent(true));
    run.on(LoopEvent::Delivered(false));
    assert_eq!(run.ended(), (60, "trigger event channel closed".to_string()));
    run.connect();
    let closed = LoopEvent::Message(Some(Ok(SocketMessage::Close)));
    run.on(closed);
    assert_eq!(run.ended(), (1, "slack closed socket".to_string()));
    run.listened();
    run.on(LoopEvent::Url(Err("again".to_string())));
    assert_eq!(run.ended(), (1, "again".to_string()));
    run.connect();
    run.on(LoopEvent::Message(None));
    assert_eq!(run.ended(), (1, "slack closed socket".to_string()));
    run.connect();
    run.on(LoopEvent::Message(None));
    assert_eq!(run.ended(), (1, "slack closed socket".to_string()));
    let mut tokenless = Loop::new(SlackConfig::default());
    tokenless.listened();
    assert_eq!(tokenless.ended(), (1, "SLACK_APP_TOKEN required".to_string()));
}

#[test]
fn a_body_that_cannot_be_read_counts_as_empty() {
    let mut run = Loop::new(config());
    run.listened();
    run.on(LoopEvent::Url(Ok(UrlReply { status: 500, body: None, decoded: None })));
    assert_eq!(
        run.ended(),
        (1, "apps.connections.open returned HTTP 500 Internal Server Error: ".to_string())
    );
    run.listened();
    let decoded = Some(answer(true, Some("wss://a"), None));
    run.on(LoopEvent::Url(Ok(UrlReply { status: 200, body: None, decoded })));
    assert_eq!(run.ended(), (2, "apps.connections.open body: ".to_string()));
}

#[test]
fn an_envelope_of_another_type_is_acked_in_the_loop() {
    let mut run = Loop::new(config());
    run.connect();
    match run.text(r#"{"envelope_id":"E9","type":"disconnect"}"#) {
        LoopAction::SendAck(ack) => assert_eq!(ack, r#"{"envelope_id":"E9"}"#),
        other => panic!("expected an ack, got {other:?}"),
    }
    run.on(LoopEvent::Sent(true));
    assert_eq!(run.ended(), (1, "slack requested disconnect".to_string()));
}

#[test]
fn the_loop_exits_where_nobody_listens() {
    let mut run = Loop::new(config());
    assert!(matches!(run.on(LoopEvent::Receiver { closed: true }), LoopAction::Exit));
    assert!(matches!(run.state, LoopState::Stopped));
    assert!(!is_awaited(&run.state, &LoopEvent::Slept));
}

#[test]
fn the_loop_waits_for_its_own_results_alone() {
    let (state, _) = start();
    assert!(is_awaited(&state, &LoopEvent::Receiver { closed: true }));
    assert!(!is_awaited(&state, &LoopEvent::Slept));
    let asking = LoopState::Asking { backoff: 1 };
    let reply = |status: u16| {
        LoopEvent::Url(Ok(UrlReply { status, body: None, decoded: None }))
    };
    assert!(is_awaited(&asking, &reply(100)));
    assert!(is_awaited(&asking, &reply(999)));
    assert!(!is_awaited(&asking, &reply(99)));
    assert!(!is_awaited(&asking, &reply(1000)));
}

#[test]
fn the_clock_dates_an_event_without_ts() {
    let text = r#"{"type": "events_api", "payload": {"event": {"type": "app_mention"}}}"#;
    let message = LoopEvent::Message(Some(Ok(SocketMessage::Text(text.to_string()))));
    let (_, action) = advance(LoopState::Reading { backoff: 1 }, message, &config());
    match action {
        LoopAction::Deliver(event) => {
            let delta = (chrono::Utc::now().timestamp() - event.occurred_at.secs).abs();
            assert!(delta < 5, "{delta}s away");
        }
        other => panic!("expected an event, got {other:?}"),
    }
}
