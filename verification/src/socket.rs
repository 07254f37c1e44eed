//! The Slack Socket Mode loop, decision by decision.
//!
//! 1. [`socket_url_request`] and [`read_socket_url`]: `apps.connections.open`
//!    with the app-level token gives a fresh `wss://...` URL.
//! 2. Every message of the WebSocket goes to [`on_message`]. Each Slack event
//!    arrives in a text frame as an envelope:
//!    ```json
//!    {
//!      "envelope_id": "...",
//!      "type": "events_api",
//!      "payload": {
//!        "type": "event_callback",
//!        "event": { "type": "app_mention", ... }
//!      }
//!    }
//!    ```
//! 3. [`handle_envelope`] acks every envelope that has an id, and says which
//!    trigger event it gives rise to.
//! 4. On any disconnect the URL is asked for again, after the delay that
//!    [`after_cycle`] gives: exponential backoff from 1s, capped at 60s.

use crate::config::{SlackConfig, SlackConfigView};
use crate::events::{
    law_surfaced, map_slack_event_at, surfaced_kind, text_or, trigger_event, TriggerEvent,
    TriggerEventView,
};
use crate::json::{
    is_flat, json_text, no_members, parsed_json, put, Json, JsonView, Member, Parsed,
};
use crate::text::{decimal, same_text};
use crate::time::{is_instant, utc_now, Timestamp};
use crate::web_api::is_success;
use vstd::arithmetic::power2::pow2;
use vstd::prelude::*;
use vstd::string::*;

verus! {

/// The delay after the first failure, in seconds.
pub const RECONNECT_INITIAL_BACKOFF: u64 = 1;

/// The longest delay, in seconds.
pub const RECONNECT_MAX_BACKOFF: u64 = 60;

/// How to go on after one connect, drain, disconnect cycle.
#[derive(Debug, Clone, Copy, PartialEq, Eq, Structural)]
pub struct Reconnect {
    /// How long to wait before connecting again, in seconds.
    pub wait: u64,
    /// The delay for the next failure, in seconds.
    pub backoff: u64,
}

/// The delay that follows a delay of `backoff` seconds.
pub open spec fn next_backoff(backoff: int) -> int {
    if 2 * backoff <= RECONNECT_MAX_BACKOFF {
        2 * backoff
    } else {
        RECONNECT_MAX_BACKOFF as int
    }
}

/// How to go on after a cycle: a clean end resets the backoff and waits for the
/// first delay, a failure waits for the current one and doubles it up to the
/// cap.
pub fn after_cycle(backoff: u64, clean: bool) -> (r: Reconnect)
    ensures
        clean ==> r.wait == RECONNECT_INITIAL_BACKOFF && r.backoff == RECONNECT_INITIAL_BACKOFF,
        !clean ==> r.wait == backoff && r.backoff == next_backoff(backoff as int),
{
    if clean {
        Reconnect { wait: RECONNECT_INITIAL_BACKOFF, backoff: RECONNECT_INITIAL_BACKOFF }
    } else if backoff <= RECONNECT_MAX_BACKOFF / 2 {
        Reconnect { wait: backoff, backoff: backoff * 2 }
    } else {
        Reconnect { wait: backoff, backoff: RECONNECT_MAX_BACKOFF }
    }
}

/// Why a cycle of the socket loop has ended.
#[derive(Debug)]
pub enum SocketError {
    /// No app-level token.
    MissingAppToken,
    /// `apps.connections.open` returned a non-2xx HTTP status.
    Http { status: String, body: String },
    /// The body of the answer could not be read.
    Body(String),
    /// The answer was `ok=false`.
    NotOk(String),
    /// The answer had no URL.
    MissingUrl,
    /// Slack rotates servers and asked for a disconnect.
    Disconnect,
    /// Nobody listens to the events.
    ChannelClosed,
    /// No answer came.
    Transport(String),
    /// The connection to a URL failed.
    Connect(String),
    /// Reading from the WebSocket failed.
    Read,
    /// A ping could not be answered.
    Pong,
    /// Slack closed the socket: a clean end.
    Closed,
}

/// What the end of a cycle says.
pub enum SocketErrorView {
    MissingAppToken,
    Http { status: Seq<char>, body: Seq<char> },
    Body(Seq<char>),
    NotOk(Seq<char>),
    MissingUrl,
    Disconnect,
    ChannelClosed,
    Transport(Seq<char>),
    Connect(Seq<char>),
    Read,
    Pong,
    Closed,
}

impl View for SocketError {
    type V = SocketErrorView;

    open spec fn view(&self) -> SocketErrorView {
        match self {
            SocketError::MissingAppToken => SocketErrorView::MissingAppToken,
            SocketError::Http { status, body } => SocketErrorView::Http {
                status: status@,
                body: body@,
            },
            SocketError::Body(body) => SocketErrorView::Body(body@),
            SocketError::NotOk(code) => SocketErrorView::NotOk(code@),
            SocketError::MissingUrl => SocketErrorView::MissingUrl,
            SocketError::Disconnect => SocketErrorView::Disconnect,
            SocketError::ChannelClosed => SocketErrorView::ChannelClosed,
            SocketError::Transport(message) => SocketErrorView::Transport(message@),
            SocketError::Connect(url) => SocketErrorView::Connect(url@),
            SocketError::Read => SocketErrorView::Read,
            SocketError::Pong => SocketErrorView::Pong,
            SocketError::Closed => SocketErrorView::Closed,
        }
    }
}

impl SocketErrorView {
    /// The reason in words.
    pub open spec fn message(self) -> Seq<char> {
        match self {
            SocketErrorView::MissingAppToken => "SLACK_APP_TOKEN required"@,
            SocketErrorView::Http { status, body } => "apps.connections.open returned HTTP "@
                + status + ": "@ + body,
            SocketErrorView::Body(body) => "apps.connections.open body: "@ + body,
            SocketErrorView::NotOk(code) => "apps.connections.open ok=false: "@ + code,
            SocketErrorView::MissingUrl => "apps.connections.open missing url"@,
            SocketErrorView::Disconnect => "slack requested disconnect"@,
            SocketErrorView::ChannelClosed => "trigger event channel closed"@,
            SocketErrorView::Transport(message) => message,
            SocketErrorView::Connect(url) => "connect_async("@ + url + ")"@,
            SocketErrorView::Read => "websocket read"@,
            SocketErrorView::Pong => "send pong"@,
            SocketErrorView::Closed => "slack closed socket"@,
        }
    }
}

impl SocketError {
    /// The reason in words.
    pub fn message(&self) -> (r: String)
        ensures
            r@ == self@.message(),
    {
        match self {
            SocketError::MissingAppToken => "SLACK_APP_TOKEN required".to_string(),
            SocketError::Http { status, body } => {
                let mut text: String = "apps.connections.open returned HTTP ".to_string();
                text.append(status.as_str());
                text.append(": ");
                text.append(body.as_str());
                text
            },
            SocketError::Body(body) => "apps.connections.open body: ".to_string().concat(
                body.as_str(),
            ),
            SocketError::NotOk(code) => "apps.connections.open ok=false: ".to_string().concat(
                code.as_str(),
            ),
            SocketError::MissingUrl => "apps.connections.open missing url".to_string(),
            SocketError::Disconnect => "slack requested disconnect".to_string(),
            SocketError::ChannelClosed => "trigger event channel closed".to_string(),
            SocketError::Transport(message) => message.clone(),
            SocketError::Connect(url) => "connect_async(".to_string().concat(url.as_str()).concat(
                ")",
            ),
            SocketError::Read => "websocket read".to_string(),
            SocketError::Pong => "send pong".to_string(),
            SocketError::Closed => "slack closed socket".to_string(),
        }
    }
}

/// What one frame asks for.
#[derive(Debug)]
pub enum Verdict {
    /// Nothing.
    Skip,
    /// Leave this connection and open another.
    Disconnect,
    /// Hand on this event.
    Emit(TriggerEvent),
}

/// What is to be done about one frame: the ack is sent first.
#[derive(Debug)]
pub struct FrameOutcome {
    /// The text frame that acknowledges the envelope.
    pub ack: Option<String>,
    pub verdict: Verdict,
}

/// What a verdict says.
pub enum VerdictView {
    Skip,
    Disconnect,
    Emit(TriggerEventView),
}

/// What an outcome says.
pub struct FrameView {
    pub ack: Option<Seq<char>>,
    pub verdict: VerdictView,
}

impl View for Verdict {
    type V = VerdictView;

    open spec fn view(&self) -> VerdictView {
        match self {
            Verdict::Skip => VerdictView::Skip,
            Verdict::Disconnect => VerdictView::Disconnect,
            Verdict::Emit(event) => VerdictView::Emit(event@),
        }
    }
}

impl View for FrameOutcome {
    type V = FrameView;

    open spec fn view(&self) -> FrameView {
        FrameView { ack: self.ack.deep_view(), verdict: self.verdict@ }
    }
}

/// The type of an envelope.
pub open spec fn envelope_type(envelope: JsonView) -> Seq<char> {
    text_or(envelope.text_at("type"@), ""@)
}

/// The acknowledgement of an envelope.
pub open spec fn ack_tree(envelope_id: Seq<char>) -> JsonView {
    JsonView::Object(no_members().insert("envelope_id"@, JsonView::Text(envelope_id)))
}

/// The frame that acknowledges an envelope, where it has an id.
pub open spec fn envelope_ack(envelope: JsonView) -> Option<Seq<char>> {
    match envelope.text_at("envelope_id"@) {
        Some(id) => Some(json_text(ack_tree(id))),
        None => None,
    }
}

/// Whether `ack` reads back as the object that names the envelope which a frame
/// was read as.
pub open spec fn acknowledges(ack: Seq<char>, parsed: Parsed) -> bool {
    &&& parsed matches Parsed::Value(envelope)
    &&& envelope.text_at("envelope_id"@) matches Some(id)
    &&& parsed_json(ack) == Parsed::Value(ack_tree(id))
}

/// The Slack event that an envelope carries.
pub open spec fn envelope_event(envelope: JsonView) -> Option<JsonView> {
    match envelope.get("payload"@) {
        Some(payload) => payload.get("event"@),
        None => None,
    }
}

/// Whether the allowlist lets an event through. One without a channel passes.
pub open spec fn passes_filter(event: JsonView, config: SlackConfigView) -> bool {
    let channel = text_or(event.text_at("channel"@), ""@);
    channel.len() == 0 || config.allows(channel)
}

/// What an envelope asks for.
pub open spec fn envelope_verdict(
    envelope: JsonView,
    config: SlackConfigView,
    now: Timestamp,
) -> VerdictView {
    if envelope_type(envelope) == "disconnect"@ {
        VerdictView::Disconnect
    } else if envelope_type(envelope) == "events_api"@ {
        match envelope_event(envelope) {
            Some(event) => match trigger_event(event, now) {
                Some(emitted) => if passes_filter(event, config) {
                    VerdictView::Emit(emitted)
                } else {
                    VerdictView::Skip
                },
                None => VerdictView::Skip,
            },
            None => VerdictView::Skip,
        }
    } else {
        VerdictView::Skip
    }
}

/// What is to be done about an envelope.
pub open spec fn envelope_outcome(
    envelope: JsonView,
    config: SlackConfigView,
    now: Timestamp,
) -> FrameView {
    FrameView { ack: envelope_ack(envelope), verdict: envelope_verdict(envelope, config, now) }
}

/// What is to be done about a frame, by what its text reads as: a text that is
/// not JSON is passed over.
pub open spec fn frame_outcome(parsed: Parsed, config: SlackConfigView, now: Timestamp) -> FrameView {
    match parsed {
        Parsed::Value(envelope) => envelope_outcome(envelope, config, now),
        Parsed::Malformed(_) => FrameView { ack: None, verdict: VerdictView::Skip },
    }
}

/// The frame that acknowledges an envelope.
fn ack_text(envelope_id: &str) -> (r: String)
    ensures
        r@ == json_text(ack_tree(envelope_id@)),
        parsed_json(r@) == Parsed::Value(ack_tree(envelope_id@)),
{
    let mut members: Vec<Member> = Vec::new();
    put(&mut members, "envelope_id", Json::from_text(envelope_id));
    let ack: Json = Json::Object(members);
    assert(ack@ == ack_tree(envelope_id@));
    assert(is_flat(ack_tree(envelope_id@)));
    ack.encode()
}

/// What is to be done about one envelope, with `now` for the time of an event
/// that does not say when it happened. Every envelope with an id is acked, and
/// the ack reads back as the object that names the envelope.
pub fn handle_envelope(envelope: &Json, config: &SlackConfig, now: Timestamp) -> (r: FrameOutcome)
    ensures
        r@ == envelope_outcome(envelope@, config@, now),
        envelope@.text_at("envelope_id"@) is Some <==> r.ack is Some,
        envelope@.text_at("type"@) == Some("disconnect"@) <==> r.verdict is Disconnect,
        r.ack matches Some(ack) ==> acknowledges(ack@, Parsed::Value(envelope@)),
{
    let kind: &str = match envelope.text_at("type") {
        Some(kind) => kind,
        None => "",
    };
    proof {
        reveal_strlit("");
        reveal_strlit("disconnect");
        assert("disconnect"@.len() == 10);
    }
    // Slack requires an ack within 3s of receipt, whatever becomes of the event.
    let ack: Option<String> = match envelope.text_at("envelope_id") {
        Some(id) => Some(ack_text(id)),
        None => None,
    };
    // Slack rotates servers: leave, and connect again.
    if same_text(kind, "disconnect") {
        return FrameOutcome { ack, verdict: Verdict::Disconnect };
    }
    if !same_text(kind, "events_api") {
        return FrameOutcome { ack, verdict: Verdict::Skip };
    }
    let event: &Json = match envelope.get("payload") {
        Some(payload) => match payload.get("event") {
            Some(event) => event,
            None => return FrameOutcome { ack, verdict: Verdict::Skip },
        },
        None => return FrameOutcome { ack, verdict: Verdict::Skip },
    };
    if let Some(channel) = event.text_at("channel") {
        if !channel.is_empty() && !config.channel_allowed(channel) {
            return FrameOutcome { ack, verdict: Verdict::Skip };
        }
    }
    match map_slack_event_at(event, now) {
        Some(emitted) => FrameOutcome { ack, verdict: Verdict::Emit(emitted) },
        None => FrameOutcome { ack, verdict: Verdict::Skip },
    }
}

/// What is to be done about one text frame, with `now` for the time of an event
/// that does not say when it happened.
pub fn handle_frame_at(text: &str, config: &SlackConfig, now: Timestamp) -> (r: FrameOutcome)
    ensures
        r@ == frame_outcome(parsed_json(text@), config@, now),
        r.ack matches Some(ack) ==> acknowledges(ack@, parsed_json(text@)),
{
    match Json::parse(text) {
        Ok(envelope) => handle_envelope(&envelope, config, now),
        Err(_) => FrameOutcome { ack: None, verdict: Verdict::Skip },
    }
}

/// What is to be done about one inbound WebSocket text frame.
pub fn handle_frame(text: &str, config: &SlackConfig) -> (r: FrameOutcome)
    ensures
        exists|now: Timestamp|
            is_instant(now.secs as int, now.nanos as int) && r@ == #[trigger] frame_outcome(
                parsed_json(text@),
                config@,
                now,
            ),
        r.ack matches Some(ack) ==> acknowledges(ack@, parsed_json(text@)),
{
    handle_frame_at(text, config, utc_now())
}

/// A message of the WebSocket.
#[derive(Debug)]
pub enum SocketMessage {
    Text(String),
    Ping(Vec<u8>),
    Pong(Vec<u8>),
    Binary(Vec<u8>),
    Close,
    Raw,
}

/// What is to be done about a message.
#[derive(Debug)]
pub enum SocketAction {
    /// Nothing.
    Ignore,
    /// Answer a ping.
    SendPong(Vec<u8>),
    /// The connection has ended cleanly.
    Finish,
    /// A frame was read.
    Frame(FrameOutcome),
}

/// What is to be done about one message of the WebSocket, with `now` for the
/// time of an event that does not say when it happened.
pub fn on_message(message: SocketMessage, config: &SlackConfig, now: Timestamp) -> (r:
    SocketAction)
    ensures
        match message {
            SocketMessage::Text(text) => r matches SocketAction::Frame(outcome) && outcome@
                == frame_outcome(parsed_json(text@), config@, now) && (outcome.ack matches Some(ack)
                ==> acknowledges(ack@, parsed_json(text@))),
            SocketMessage::Ping(payload) => r == SocketAction::SendPong(payload),
            SocketMessage::Close => r is Finish,
            SocketMessage::Pong(_) => r is Ignore,
            SocketMessage::Binary(_) => r is Ignore,
            SocketMessage::Raw => r is Ignore,
        },
{
    match message {
        SocketMessage::Text(text) => SocketAction::Frame(handle_frame_at(text.as_str(), config, now)),
        SocketMessage::Ping(payload) => SocketAction::SendPong(payload),
        SocketMessage::Close => SocketAction::Finish,
        SocketMessage::Pong(_) => SocketAction::Ignore,
        SocketMessage::Binary(_) => SocketAction::Ignore,
        SocketMessage::Raw => SocketAction::Ignore,
    }
}

/// The request for a fresh WebSocket URL.
#[derive(Debug)]
pub struct SocketUrlRequest {
    pub url: String,
    /// The app-level token, sent as a bearer credential.
    pub bearer: String,
    pub content_type: String,
}

/// The content type of the request for a WebSocket URL.
pub const CONTENT_TYPE_FORM: &'static str = "application/x-www-form-urlencoded";

/// The `apps.connections.open` request, where there is an app-level token.
pub fn socket_url_request(config: &SlackConfig) -> (r: Result<SocketUrlRequest, SocketError>)
    ensures
        match r {
            Ok(request) => config@.app_token == Some(request.bearer@) && request.url@
                == config@.slack_api_base + "/apps.connections.open"@ && request.content_type@
                == CONTENT_TYPE_FORM@,
            Err(error) => config@.app_token is None && error@ == SocketErrorView::MissingAppToken,
        },
{
    match &config.app_token {
        Some(token) => Ok(
            SocketUrlRequest {
                url: config.slack_api_base.clone().concat("/apps.connections.open"),
                bearer: token.clone(),
                content_type: CONTENT_TYPE_FORM.to_string(),
            },
        ),
        None => Err(SocketError::MissingAppToken),
    }
}

/// The answer to `apps.connections.open`.
#[derive(Debug)]
pub struct AppsConnectionsOpenResponse {
    pub ok: bool,
    pub url: Option<String>,
    pub error: Option<String>,
}

/// The reason phrase that goes with an HTTP status.
pub uninterp spec fn status_reason(status: u16) -> Seq<char>;

/// `http::StatusCode`'s `Display`, through `reqwest::StatusCode::from_u16`: the
/// code in decimal, a space, and the reason phrase, named `status_reason`.
#[verifier::external_body]
fn status_text(status: u16) -> (r: String)
    requires
        100 <= status <= 999,
    ensures
        r@ == decimal(status as nat) + " "@ + status_reason(status),
{
    reqwest::StatusCode::from_u16(status).expect("a three-digit status code").to_string()
}

/// What the answer to `apps.connections.open` says: the URL, or the failure.
pub open spec fn socket_url_of(
    status: u16,
    body: Seq<char>,
    decoded: Option<AppsConnectionsOpenResponse>,
) -> Result<Seq<char>, SocketErrorView> {
    if !is_success(status) {
        Err(
            SocketErrorView::Http {
                status: decimal(status as nat) + " "@ + status_reason(status),
                body,
            },
        )
    } else {
        match decoded {
            None => Err(SocketErrorView::Body(body)),
            Some(answer) => if !answer.ok {
                Err(SocketErrorView::NotOk(text_or(answer.error.deep_view(), "unknown"@)))
            } else {
                match answer.url {
                    Some(url) => Ok(url@),
                    None => Err(SocketErrorView::MissingUrl),
                }
            },
        }
    }
}

/// Reads the answer to `apps.connections.open`: its HTTP status, its body, and
/// what the body decodes to.
pub fn read_socket_url(
    status: u16,
    body: &str,
    decoded: Option<AppsConnectionsOpenResponse>,
) -> (r: Result<String, SocketError>)
    requires
        100 <= status <= 999,
    ensures
        match r {
            Ok(url) => socket_url_of(status, body@, decoded) matches Ok(expected) && url@ == expected,
            Err(error) => socket_url_of(status, body@, decoded) matches Err(expected) && error@
                == expected,
        },
        200 <= status < 300 ==> (decoded matches Some(answer) ==> (answer.ok ==> (
        answer.url matches Some(url) ==> (r matches Ok(given) && given@ == url@)))),
        r matches Ok(given) ==> 200 <= status < 300 && decoded is Some && decoded->0.ok
            && decoded->0.url is Some && decoded->0.url->0@ == given@,
{
    if status < 200 || 300 <= status {
        return Err(SocketError::Http { status: status_text(status), body: body.to_string() });
    }
    match decoded {
        None => Err(SocketError::Body(body.to_string())),
        Some(answer) => if !answer.ok {
            match answer.error {
                Some(code) => Err(SocketError::NotOk(code)),
                None => Err(SocketError::NotOk("unknown".to_string())),
            }
        } else {
            match answer.url {
                Some(url) => Ok(url),
                None => Err(SocketError::MissingUrl),
            }
        },
    }
}

/// The delay after `failures` failures in a row.
pub open spec fn backoff_after(failures: nat) -> int
    decreases failures,
{
    if failures == 0 {
        RECONNECT_INITIAL_BACKOFF as int
    } else {
        next_backoff(backoff_after((failures - 1) as nat))
    }
}

/// The delay starts at one second, doubles with every failure and never goes
/// over a minute.
pub proof fn law_backoff(failures: nat)
    ensures
        backoff_after(failures) == (if pow2(failures) <= RECONNECT_MAX_BACKOFF {
            pow2(failures) as int
        } else {
            RECONNECT_MAX_BACKOFF as int
        }),
        RECONNECT_INITIAL_BACKOFF <= backoff_after(failures) <= RECONNECT_MAX_BACKOFF,
        backoff_after(failures) <= backoff_after(failures + 1),
    decreases failures,
{
    vstd::arithmetic::power2::lemma_pow2_pos(failures);
    if failures == 0 {
        vstd::arithmetic::power2::lemma2_to64();
    } else {
        law_backoff((failures - 1) as nat);
        vstd::arithmetic::power2::lemma_pow2_unfold(failures);
    }
}

/// Every envelope with an id is acknowledged, whatever its type, whatever the
/// allowlist says and whatever becomes of its event; nothing else is.
pub proof fn law_ack(envelope: JsonView, config: SlackConfigView, now: Timestamp)
    ensures
        envelope_outcome(envelope, config, now).ack is Some <==> envelope.text_at(
            "envelope_id"@,
        ) is Some,
        envelope_outcome(envelope, config, now).ack == envelope_ack(envelope),
{
}

/// An event is handed on only where it came in an `events_api` envelope, is a
/// mention or a direct message, and its channel passes the allowlist; and then
/// it is.
pub proof fn law_emitted(envelope: JsonView, config: SlackConfigView, now: Timestamp)
    ensures
        envelope_outcome(envelope, config, now).verdict is Emit <==> envelope_type(envelope)
            == "events_api"@ && (envelope_event(envelope) matches Some(event) && surfaced_kind(event)
            is Some && passes_filter(event, config)),
        envelope_outcome(envelope, config, now).verdict matches VerdictView::Emit(emitted)
            ==> envelope_event(envelope) == Some(emitted.payload),
{
    reveal_strlit("disconnect");
    reveal_strlit("events_api");
    assert("disconnect"@[0] != "events_api"@[0]);
}

/// A frame makes the loop leave the connection where Slack asks for it, and only
/// there.
pub proof fn law_disconnect(envelope: JsonView, config: SlackConfigView, now: Timestamp)
    ensures
        envelope_outcome(envelope, config, now).verdict is Disconnect <==> envelope_type(envelope)
            == "disconnect"@,
{
}

/// The URL is the one that Slack gave, character by character, for every 2xx
/// status and every answer that is `ok` and has one.
pub proof fn law_socket_url(
    status: u16,
    body: Seq<char>,
    answer: AppsConnectionsOpenResponse,
    url: String,
)
    requires
        200 <= status < 300,
        answer.ok,
        answer.url == Some(url),
    ensures
        socket_url_of(status, body, Some(answer)) == Ok::<Seq<char>, SocketErrorView>(url@),
{
}

/// Every other answer to `apps.connections.open` is a failure that says why: the
/// status and body where the status is not 2xx, the body where it does not
/// decode, Slack's error or `unknown` where it is not `ok`, and the missing URL.
pub proof fn law_socket_url_failures(
    status: u16,
    body: Seq<char>,
    decoded: Option<AppsConnectionsOpenResponse>,
    answer: AppsConnectionsOpenResponse,
)
    ensures
        status < 200 || status >= 300 ==> socket_url_of(status, body, decoded) == Err::<
            Seq<char>,
            SocketErrorView,
        >(
            SocketErrorView::Http {
                status: decimal(status as nat) + " "@ + status_reason(status),
                body,
            },
        ),
        200 <= status < 300 ==> socket_url_of(status, body, None) == Err::<
            Seq<char>,
            SocketErrorView,
        >(SocketErrorView::Body(body)),
        200 <= status < 300 && !answer.ok ==> (answer.error matches Some(code) ==> socket_url_of(
            status,
            body,
            Some(answer),
        ) == Err::<Seq<char>, SocketErrorView>(SocketErrorView::NotOk(code@))),
        200 <= status < 300 && !answer.ok && answer.error is None ==> socket_url_of(
            status,
            body,
            Some(answer),
        ) == Err::<Seq<char>, SocketErrorView>(SocketErrorView::NotOk("unknown"@)),
        200 <= status < 300 && answer.ok && answer.url is None ==> socket_url_of(
            status,
            body,
            Some(answer),
        ) == Err::<Seq<char>, SocketErrorView>(SocketErrorView::MissingUrl),
{
}

/// Every envelope with an id is acked with an object that holds that id under
/// `envelope_id`, and nothing more; one without is not.
pub proof fn law_ack_frame(
    envelope: JsonView,
    config: SlackConfigView,
    now: Timestamp,
    id: Seq<char>,
    text: Seq<char>,
)
    ensures
        envelope.text_at("envelope_id"@) == Some(id) ==> frame_outcome(
            Parsed::Value(envelope),
            config,
            now,
        ).ack == Some(json_text(ack_tree(id))),
        envelope.text_at("envelope_id"@) is None ==> frame_outcome(
            Parsed::Value(envelope),
            config,
            now,
        ).ack is None,
        ack_tree(id) is Object,
        ack_tree(id).get("envelope_id"@) == Some(JsonView::Text(id)),
        forall|name: Seq<char>| #[trigger]
            ack_tree(id).get(name) is Some ==> name == "envelope_id"@,
        acknowledges(text, Parsed::Value(envelope)) && envelope.text_at("envelope_id"@) == Some(id)
            ==> parsed_json(text) == Parsed::Value(ack_tree(id)),
        !(envelope.text_at("envelope_id"@) is Some) ==> !acknowledges(text, Parsed::Value(envelope)),
{
}

/// What a frame asks for. A text that is not JSON asks for nothing and is not
/// acked. A `disconnect` asks to leave. An `events_api` envelope hands on the
/// trigger event of the event in its payload, where there is one and its channel
/// is on the allowlist, or it names none, or the allowlist is empty; whatever
/// else the envelope holds. Nothing else asks for anything.
pub proof fn law_frame_verdict(
    envelope: JsonView,
    payload: JsonView,
    event: JsonView,
    config: SlackConfigView,
    now: Timestamp,
    reason: Seq<char>,
)
    ensures
        frame_outcome(Parsed::Malformed(reason), config, now).ack is None,
        frame_outcome(Parsed::Malformed(reason), config, now).verdict is Skip,
        envelope.text_at("type"@) == Some("disconnect"@) ==> frame_outcome(
            Parsed::Value(envelope),
            config,
            now,
        ).verdict is Disconnect,
        envelope.text_at("type"@) != Some("disconnect"@) && envelope.text_at("type"@) != Some(
            "events_api"@,
        ) ==> frame_outcome(Parsed::Value(envelope), config, now).verdict is Skip,
        envelope.text_at("type"@) == Some("events_api"@) && (envelope.get("payload"@) is None || (
        envelope.get("payload"@) == Some(payload) && payload.get("event"@) is None))
            ==> frame_outcome(Parsed::Value(envelope), config, now).verdict is Skip,
        envelope.text_at("type"@) == Some("events_api"@) && envelope.get("payload"@) == Some(payload)
            && payload.get("event"@) == Some(event) ==> {
            let verdict = frame_outcome(Parsed::Value(envelope), config, now).verdict;
            let allowed = event.text_at("channel"@) is None || event.text_at("channel"@)->0.len()
                == 0 || config.filter_channels.len() == 0 || config.filter_channels.contains(
                event.text_at("channel"@)->0,
            );
            &&& !allowed || trigger_event(event, now) is None ==> verdict is Skip
            &&& allowed && trigger_event(event, now) is Some ==> verdict == VerdictView::Emit(
                trigger_event(event, now)->0,
            )
        },
{
    reveal_strlit("disconnect");
    reveal_strlit("events_api");
    reveal_strlit("");
    assert("disconnect"@[0] != "events_api"@[0]);
    assert("disconnect"@.len() == 10 && "events_api"@.len() == 10 && ""@.len() == 0);
}

/// A mention or direct message in an `events_api` envelope is handed on whole,
/// whatever else the envelope and the event hold.
pub proof fn law_event_reaches(
    envelope: JsonView,
    payload: JsonView,
    event: JsonView,
    config: SlackConfigView,
    now: Timestamp,
)
    requires
        envelope.text_at("type"@) == Some("events_api"@),
        envelope.get("payload"@) == Some(payload),
        payload.get("event"@) == Some(event),
        event.text_at("type"@) == Some("app_mention"@) || (event.text_at("type"@) == Some(
            "message"@,
        ) && event.text_at("channel_type"@) == Some("im"@) && event.text_at("subtype"@) is None),
        config.filter_channels.len() == 0 || (event.text_at("channel"@) matches Some(channel)
            && config.filter_channels.contains(channel)),
    ensures
        frame_outcome(Parsed::Value(envelope), config, now).verdict matches VerdictView::Emit(
            emitted,
        ) && emitted.payload == event,
{
    law_frame_verdict(envelope, payload, event, config, now, Seq::empty());
    law_surfaced(event, now);
}

/// The next delay is twice the last, a minute at most, and the delays after
/// failures in a row are the powers of two up to a minute.
pub proof fn law_delays(backoff: int, failures: nat)
    ensures
        backoff <= 30 ==> next_backoff(backoff) == 2 * backoff,
        backoff > 30 ==> next_backoff(backoff) == 60,
        pow2(failures) <= 60 ==> backoff_after(failures) == pow2(failures),
        pow2(failures) > 60 ==> backoff_after(failures) == 60,
{
    law_backoff(failures);
}

/// The words for each end of a cycle.
pub proof fn law_socket_words(text: Seq<char>, body: Seq<char>)
    ensures
        SocketErrorView::MissingAppToken.message() == "SLACK_APP_TOKEN required"@,
        (SocketErrorView::Http { status: text, body }).message()
            == "apps.connections.open returned HTTP "@ + text + ": "@ + body,
        SocketErrorView::Body(body).message() == "apps.connections.open body: "@ + body,
        SocketErrorView::NotOk(text).message() == "apps.connections.open ok=false: "@ + text,
        SocketErrorView::MissingUrl.message() == "apps.connections.open missing url"@,
        SocketErrorView::Disconnect.message() == "slack requested disconnect"@,
        SocketErrorView::ChannelClosed.message() == "trigger event channel closed"@,
        SocketErrorView::Transport(text).message() == text,
        SocketErrorView::Connect(text).message() == "connect_async("@ + text + ")"@,
        SocketErrorView::Read.message() == "websocket read"@,
        SocketErrorView::Pong.message() == "send pong"@,
        SocketErrorView::Closed.message() == "slack closed socket"@,
{
}

/// The views of outcomes, verdicts and ends of cycles leave nothing out.
pub proof fn law_socket_views(outcome: FrameOutcome, verdict: Verdict, error: SocketError)
    ensures
        outcome@.ack == outcome.ack.deep_view(),
        outcome@.verdict == outcome.verdict@,
        verdict is Skip ==> verdict@ == VerdictView::Skip,
        verdict is Disconnect ==> verdict@ == VerdictView::Disconnect,
        verdict matches Verdict::Emit(event) ==> verdict@ == VerdictView::Emit(event@),
        match error {
            SocketError::MissingAppToken => error@ == SocketErrorView::MissingAppToken,
            SocketError::Http { status, body } => error@ == (SocketErrorView::Http {
                status: status@,
                body: body@,
            }),
            SocketError::Body(body) => error@ == SocketErrorView::Body(body@),
            SocketError::NotOk(code) => error@ == SocketErrorView::NotOk(code@),
            SocketError::MissingUrl => error@ == SocketErrorView::MissingUrl,
            SocketError::Disconnect => error@ == SocketErrorView::Disconnect,
            SocketError::ChannelClosed => error@ == SocketErrorView::ChannelClosed,
            SocketError::Transport(message) => error@ == SocketErrorView::Transport(message@),
            SocketError::Connect(url) => error@ == SocketErrorView::Connect(url@),
            SocketError::Read => error@ == SocketErrorView::Read,
            SocketError::Pong => error@ == SocketErrorView::Pong,
            SocketError::Closed => error@ == SocketErrorView::Closed,
        },
{
}

} // verus!
