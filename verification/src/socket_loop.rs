//! The Socket Mode loop as a state machine.
//!
//! [`advance`] takes the loop from one outside result to the next action:
//! check that somebody listens, ask for a fresh URL, connect, read, acknowledge,
//! deliver, and at the end of a connection wait and begin again.

use crate::config::{SlackConfig, SlackConfigView};
use crate::events::TriggerEvent;
use crate::json::parsed_json;
use crate::socket::{
    acknowledges, after_cycle, backoff_after, frame_outcome, next_backoff, on_message,
    read_socket_url, socket_url_of, socket_url_request, AppsConnectionsOpenResponse, FrameView,
    SocketAction, SocketError,
    SocketErrorView, SocketMessage, SocketUrlRequest, Verdict, VerdictView, CONTENT_TYPE_FORM,
    RECONNECT_INITIAL_BACKOFF, RECONNECT_MAX_BACKOFF,
};
use crate::time::{is_instant, utc_now, Timestamp};
use vstd::prelude::*;

verus! {

/// What the loop waits for. `backoff` is the delay for the next failure, in
/// seconds.
#[derive(Debug)]
pub enum LoopState {
    /// Whether anybody still listens.
    Checking { backoff: u64 },
    /// The answer to `apps.connections.open`.
    Asking { backoff: u64 },
    /// The connection to `url`.
    Connecting { backoff: u64, url: String },
    /// The next message.
    Reading { backoff: u64 },
    /// That the ack is sent; the verdict on its envelope stands.
    Acking { backoff: u64, verdict: Verdict },
    /// That the pong is sent.
    Ponging { backoff: u64 },
    /// That the event is delivered.
    Delivering { backoff: u64 },
    /// The end of the delay.
    Waiting { backoff: u64 },
    /// Nothing more.
    Stopped,
}

/// The answer to `apps.connections.open`.
#[derive(Debug)]
pub struct UrlReply {
    pub status: u16,
    /// The body, where it could be read.
    pub body: Option<String>,
    /// What the body decodes to.
    pub decoded: Option<AppsConnectionsOpenResponse>,
}

/// What the answer says. A body that could not be read counts as empty.
pub open spec fn url_of(reply: UrlReply) -> Result<Seq<char>, SocketErrorView> {
    match reply.body {
        Some(body) => socket_url_of(reply.status, body@, reply.decoded),
        None => socket_url_of(reply.status, Seq::empty(), None),
    }
}

/// A result from outside.
#[derive(Debug)]
pub enum LoopEvent {
    /// Whether the receiver of the events is gone.
    Receiver { closed: bool },
    /// The answer to `apps.connections.open`, or why there is none.
    Url(Result<UrlReply, String>),
    /// Whether the connection stands.
    Connected(bool),
    /// A message, or that reading failed; or that the stream has ended.
    Message(Option<Result<SocketMessage, String>>),
    /// Whether a frame was sent.
    Sent(bool),
    /// Whether an event was taken.
    Delivered(bool),
    /// The delay is over.
    Slept,
}

/// What is to be done outside.
#[derive(Debug)]
pub enum LoopAction {
    /// See whether anybody still listens.
    CheckReceiver,
    /// Send the `apps.connections.open` request.
    AskUrl(SocketUrlRequest),
    /// Open a WebSocket to this URL.
    Connect(String),
    /// Read the next message.
    Read,
    /// Send this text frame.
    SendAck(String),
    /// Send this pong.
    SendPong(Vec<u8>),
    /// Hand on this event.
    Deliver(TriggerEvent),
    /// The cycle has ended: wait this many seconds.
    Sleep { secs: u64, reason: SocketError },
    /// Leave the loop.
    Exit,
}

/// Whether `event` is a result that a loop in this state waits for.
pub open spec fn awaits(state: LoopState, event: LoopEvent) -> bool {
    match (state, event) {
        (LoopState::Checking { .. }, LoopEvent::Receiver { .. }) => true,
        (LoopState::Asking { .. }, LoopEvent::Url(Ok(reply))) => 100 <= reply.status <= 999,
        (LoopState::Asking { .. }, LoopEvent::Url(Err(_))) => true,
        (LoopState::Connecting { .. }, LoopEvent::Connected(_)) => true,
        (LoopState::Reading { .. }, LoopEvent::Message(_)) => true,
        (LoopState::Acking { .. }, LoopEvent::Sent(_)) => true,
        (LoopState::Ponging { .. }, LoopEvent::Sent(_)) => true,
        (LoopState::Delivering { .. }, LoopEvent::Delivered(_)) => true,
        (LoopState::Waiting { .. }, LoopEvent::Slept) => true,
        _ => false,
    }
}

/// Whether the loop begins a new cycle with this backoff.
pub open spec fn begins(next: LoopState, action: LoopAction, backoff: int) -> bool {
    &&& next matches LoopState::Checking { backoff: kept }
    &&& kept == backoff
    &&& action is CheckReceiver
}

/// Whether the loop reads on.
pub open spec fn reads_on(next: LoopState, action: LoopAction, backoff: u64) -> bool {
    &&& next == LoopState::Reading { backoff }
    &&& action is Read
}

/// Whether the cycle has failed for this reason: the loop waits for `backoff`
/// seconds, and longer the next time.
pub open spec fn fails_with(
    next: LoopState,
    action: LoopAction,
    backoff: u64,
    reason: SocketErrorView,
) -> bool {
    &&& next matches LoopState::Waiting { backoff: longer }
    &&& longer == next_backoff(backoff as int)
    &&& action matches LoopAction::Sleep { secs, reason: given }
    &&& secs == backoff
    &&& given@ == reason
}

/// Whether the connection has ended cleanly: the loop waits for the first delay,
/// which is then the next one too.
pub open spec fn closes(next: LoopState, action: LoopAction) -> bool {
    &&& next == LoopState::Waiting { backoff: RECONNECT_INITIAL_BACKOFF }
    &&& action matches LoopAction::Sleep { secs, reason }
    &&& secs == RECONNECT_INITIAL_BACKOFF
    &&& reason@ == SocketErrorView::Closed
}

/// Whether the loop carries out a verdict.
pub open spec fn carries_out(
    next: LoopState,
    action: LoopAction,
    backoff: u64,
    verdict: VerdictView,
) -> bool {
    match verdict {
        VerdictView::Skip => reads_on(next, action, backoff),
        VerdictView::Disconnect => fails_with(next, action, backoff, SocketErrorView::Disconnect),
        VerdictView::Emit(event) => {
            &&& next == LoopState::Delivering { backoff }
            &&& action matches LoopAction::Deliver(given)
            &&& given@ == event
        },
    }
}

/// Whether the loop deals with a frame: the ack first, and then the verdict.
pub open spec fn deals_with(
    next: LoopState,
    action: LoopAction,
    backoff: u64,
    outcome: FrameView,
) -> bool {
    match outcome.ack {
        Some(ack) => {
            &&& next matches LoopState::Acking { backoff: kept, verdict }
            &&& kept == backoff
            &&& verdict@ == outcome.verdict
            &&& action matches LoopAction::SendAck(frame)
            &&& frame@ == ack
        },
        None => carries_out(next, action, backoff, outcome.verdict),
    }
}

/// Whether the loop deals with a message.
pub open spec fn takes(
    next: LoopState,
    action: LoopAction,
    backoff: u64,
    message: SocketMessage,
    config: SlackConfigView,
    now: Timestamp,
) -> bool {
    match message {
        SocketMessage::Text(text) => deals_with(
            next,
            action,
            backoff,
            frame_outcome(parsed_json(text@), config, now),
        ),
        SocketMessage::Ping(payload) => {
            &&& next == LoopState::Ponging { backoff }
            &&& action == LoopAction::SendPong(payload)
        },
        SocketMessage::Close => closes(next, action),
        SocketMessage::Pong(_) => reads_on(next, action, backoff),
        SocketMessage::Binary(_) => reads_on(next, action, backoff),
        SocketMessage::Raw => reads_on(next, action, backoff),
    }
}

/// Whether the loop goes from `state`, on `event`, to `next` with `action`.
pub open spec fn goes(
    state: LoopState,
    event: LoopEvent,
    config: SlackConfigView,
    now: Timestamp,
    next: LoopState,
    action: LoopAction,
) -> bool {
    match (state, event) {
        (LoopState::Checking { backoff }, LoopEvent::Receiver { closed }) => if closed {
            next is Stopped && action is Exit
        } else {
            match config.app_token {
                Some(token) => {
                    &&& next == LoopState::Asking { backoff }
                    &&& action matches LoopAction::AskUrl(request)
                    &&& request.url@ == config.slack_api_base + "/apps.connections.open"@
                    &&& request.bearer@ == token
                    &&& request.content_type@ == CONTENT_TYPE_FORM@
                },
                None => fails_with(next, action, backoff, SocketErrorView::MissingAppToken),
            }
        },
        (LoopState::Asking { backoff }, LoopEvent::Url(Ok(reply))) => match url_of(reply) {
            Ok(url) => {
                &&& next matches LoopState::Connecting { backoff: kept, url: asked }
                &&& kept == backoff
                &&& asked@ == url
                &&& action matches LoopAction::Connect(given)
                &&& given@ == url
            },
            Err(reason) => fails_with(next, action, backoff, reason),
        },
        (LoopState::Asking { backoff }, LoopEvent::Url(Err(message))) => fails_with(
            next,
            action,
            backoff,
            SocketErrorView::Transport(message@),
        ),
        (LoopState::Connecting { backoff, url }, LoopEvent::Connected(stands)) => if stands {
            reads_on(next, action, backoff)
        } else {
            fails_with(next, action, backoff, SocketErrorView::Connect(url@))
        },
        (LoopState::Reading { backoff }, LoopEvent::Message(None)) => closes(next, action),
        (LoopState::Reading { backoff }, LoopEvent::Message(Some(Err(_)))) => fails_with(
            next,
            action,
            backoff,
            SocketErrorView::Read,
        ),
        (LoopState::Reading { backoff }, LoopEvent::Message(Some(Ok(message)))) => takes(
            next,
            action,
            backoff,
            message,
            config,
            now,
        ),
        (LoopState::Acking { backoff, verdict }, LoopEvent::Sent(_)) => carries_out(
            next,
            action,
            backoff,
            verdict@,
        ),
        (LoopState::Ponging { backoff }, LoopEvent::Sent(sent)) => if sent {
            reads_on(next, action, backoff)
        } else {
            fails_with(next, action, backoff, SocketErrorView::Pong)
        },
        (LoopState::Delivering { backoff }, LoopEvent::Delivered(taken)) => if taken {
            reads_on(next, action, backoff)
        } else {
            fails_with(next, action, backoff, SocketErrorView::ChannelClosed)
        },
        (LoopState::Waiting { backoff }, LoopEvent::Slept) => begins(next, action, backoff as int),
        _ => false,
    }
}

/// Whether `ack` reads back as the object that names the envelope which the
/// event brought.
pub open spec fn answers(ack: Seq<char>, event: LoopEvent) -> bool {
    &&& event matches LoopEvent::Message(Some(Ok(SocketMessage::Text(text))))
    &&& acknowledges(ack, parsed_json(text@))
}

/// The loop at its start, and what it does first.
pub fn start() -> (r: (LoopState, LoopAction))
    ensures
        begins(r.0, r.1, RECONNECT_INITIAL_BACKOFF as int),
{
    (LoopState::Checking { backoff: RECONNECT_INITIAL_BACKOFF }, LoopAction::CheckReceiver)
}

/// Whether `event` is a result that a loop in this state waits for.
pub fn is_awaited(state: &LoopState, event: &LoopEvent) -> (r: bool)
    ensures
        r == awaits(*state, *event),
{
    match (state, event) {
        (LoopState::Checking { .. }, LoopEvent::Receiver { .. }) => true,
        (LoopState::Asking { .. }, LoopEvent::Url(Ok(reply))) => 100 <= reply.status && reply.status
            <= 999,
        (LoopState::Asking { .. }, LoopEvent::Url(Err(_))) => true,
        (LoopState::Connecting { .. }, LoopEvent::Connected(_)) => true,
        (LoopState::Reading { .. }, LoopEvent::Message(_)) => true,
        (LoopState::Acking { .. }, LoopEvent::Sent(_)) => true,
        (LoopState::Ponging { .. }, LoopEvent::Sent(_)) => true,
        (LoopState::Delivering { .. }, LoopEvent::Delivered(_)) => true,
        (LoopState::Waiting { .. }, LoopEvent::Slept) => true,
        _ => false,
    }
}

fn fail(backoff: u64, reason: SocketError) -> (r: (LoopState, LoopAction))
    ensures
        fails_with(r.0, r.1, backoff, reason@),
{
    let then = after_cycle(backoff, false);
    (LoopState::Waiting { backoff: then.backoff }, LoopAction::Sleep { secs: then.wait, reason })
}

fn close(backoff: u64) -> (r: (LoopState, LoopAction))
    ensures
        closes(r.0, r.1),
{
    let then = after_cycle(backoff, true);
    (
        LoopState::Waiting { backoff: then.backoff },
        LoopAction::Sleep { secs: then.wait, reason: SocketError::Closed },
    )
}

fn read_url(reply: UrlReply) -> (r: Result<String, SocketError>)
    requires
        100 <= reply.status <= 999,
    ensures
        match r {
            Ok(url) => url_of(reply) matches Ok(expected) && url@ == expected,
            Err(error) => url_of(reply) matches Err(expected) && error@ == expected,
        },
{
    match reply.body {
        Some(body) => read_socket_url(reply.status, body.as_str(), reply.decoded),
        None => {
            proof {
                reveal_strlit("");
                assert(""@ =~= Seq::<char>::empty());
            }
            read_socket_url(reply.status, "", None)
        },
    }
}

fn read(backoff: u64) -> (r: (LoopState, LoopAction))
    ensures
        reads_on(r.0, r.1, backoff),
{
    (LoopState::Reading { backoff }, LoopAction::Read)
}

fn carry_out(backoff: u64, verdict: Verdict) -> (r: (LoopState, LoopAction))
    ensures
        carries_out(r.0, r.1, backoff, verdict@),
{
    match verdict {
        Verdict::Skip => read(backoff),
        Verdict::Disconnect => fail(backoff, SocketError::Disconnect),
        Verdict::Emit(event) => (LoopState::Delivering { backoff }, LoopAction::Deliver(event)),
    }
}

fn take(backoff: u64, message: SocketMessage, config: &SlackConfig, now: Timestamp) -> (r: (
    LoopState,
    LoopAction,
))
    ensures
        takes(r.0, r.1, backoff, message, config@, now),
        r.1 matches LoopAction::SendAck(ack) ==> (message matches SocketMessage::Text(text)
            && acknowledges(ack@, parsed_json(text@))),
{
    match on_message(message, config, now) {
        SocketAction::Ignore => read(backoff),
        SocketAction::SendPong(payload) => (
            LoopState::Ponging { backoff },
            LoopAction::SendPong(payload),
        ),
        SocketAction::Finish => close(backoff),
        SocketAction::Frame(outcome) => match outcome.ack {
            Some(ack) => (
                LoopState::Acking { backoff, verdict: outcome.verdict },
                LoopAction::SendAck(ack),
            ),
            None => carry_out(backoff, outcome.verdict),
        },
    }
}

/// Takes the loop from an outside result to the next action, with `now` for the
/// time of an event that does not say when it happened.
pub fn advance_at(state: LoopState, event: LoopEvent, config: &SlackConfig, now: Timestamp) -> (r: (
    LoopState,
    LoopAction,
))
    requires
        awaits(state, event),
    ensures
        goes(state, event, config@, now, r.0, r.1),
        r.1 matches LoopAction::SendAck(ack) ==> answers(ack@, event),
{
    match (state, event) {
        (LoopState::Checking { backoff }, LoopEvent::Receiver { closed }) => if closed {
            (LoopState::Stopped, LoopAction::Exit)
        } else {
            match socket_url_request(config) {
                Ok(request) => (LoopState::Asking { backoff }, LoopAction::AskUrl(request)),
                Err(reason) => fail(backoff, reason),
            }
        },
        (LoopState::Asking { backoff }, LoopEvent::Url(Ok(reply))) => match read_url(reply) {
            Ok(url) => {
                let asked: String = url.clone();
                (LoopState::Connecting { backoff, url: asked }, LoopAction::Connect(url))
            },
            Err(reason) => fail(backoff, reason),
        },
        (LoopState::Asking { backoff }, LoopEvent::Url(Err(message))) => fail(
            backoff,
            SocketError::Transport(message),
        ),
        (LoopState::Connecting { backoff, url }, LoopEvent::Connected(stands)) => if stands {
            read(backoff)
        } else {
            fail(backoff, SocketError::Connect(url))
        },
        (LoopState::Reading { backoff }, LoopEvent::Message(None)) => close(backoff),
        (LoopState::Reading { backoff }, LoopEvent::Message(Some(Err(_)))) => fail(
            backoff,
            SocketError::Read,
        ),
        (LoopState::Reading { backoff }, LoopEvent::Message(Some(Ok(message)))) => take(
            backoff,
            message,
            config,
            now,
        ),
        (LoopState::Acking { backoff, verdict }, LoopEvent::Sent(_)) => carry_out(backoff, verdict),
        (LoopState::Ponging { backoff }, LoopEvent::Sent(sent)) => if sent {
            read(backoff)
        } else {
            fail(backoff, SocketError::Pong)
        },
        (LoopState::Delivering { backoff }, LoopEvent::Delivered(taken)) => if taken {
            read(backoff)
        } else {
            fail(backoff, SocketError::ChannelClosed)
        },
        (LoopState::Waiting { backoff }, LoopEvent::Slept) => (
            LoopState::Checking { backoff },
            LoopAction::CheckReceiver,
        ),
        _ => (LoopState::Stopped, LoopAction::Exit),
    }
}

/// Takes the loop from an outside result to the next action.
pub fn advance(state: LoopState, event: LoopEvent, config: &SlackConfig) -> (r: (
    LoopState,
    LoopAction,
))
    requires
        awaits(state, event),
    ensures
        exists|now: Timestamp|
            is_instant(now.secs as int, now.nanos as int) && #[trigger] goes(
                state,
                event,
                config@,
                now,
                r.0,
                r.1,
            ),
        r.1 matches LoopAction::SendAck(ack) ==> answers(ack@, event),
{
    advance_at(state, event, config, utc_now())
}

/// The delay for the next failure of a loop in this state.
pub open spec fn backoff_of(state: LoopState) -> Option<u64> {
    match state {
        LoopState::Checking { backoff } => Some(backoff),
        LoopState::Asking { backoff } => Some(backoff),
        LoopState::Connecting { backoff, .. } => Some(backoff),
        LoopState::Reading { backoff } => Some(backoff),
        LoopState::Acking { backoff, .. } => Some(backoff),
        LoopState::Ponging { backoff } => Some(backoff),
        LoopState::Delivering { backoff } => Some(backoff),
        LoopState::Waiting { backoff } => Some(backoff),
        LoopState::Stopped => None,
    }
}

/// Whether the loop's delay is in bounds.
pub open spec fn in_bounds(state: LoopState) -> bool {
    backoff_of(state) matches Some(backoff) ==> RECONNECT_INITIAL_BACKOFF <= backoff
        <= RECONNECT_MAX_BACKOFF
}

/// The delay starts in bounds and stays there: no wait is shorter than a second
/// or longer than a minute.
pub proof fn law_bounded_delay(
    state: LoopState,
    event: LoopEvent,
    config: SlackConfigView,
    now: Timestamp,
    next: LoopState,
    action: LoopAction,
)
    requires
        in_bounds(state),
        goes(state, event, config, now, next, action),
    ensures
        in_bounds(next),
        action matches LoopAction::Sleep { secs, .. } ==> RECONNECT_INITIAL_BACKOFF <= secs
            <= RECONNECT_MAX_BACKOFF,
{
}

/// A connection is opened only to the URL that Slack has just answered with: a
/// reconnect asks for a fresh one.
pub proof fn law_fresh_url(
    state: LoopState,
    event: LoopEvent,
    config: SlackConfigView,
    now: Timestamp,
    next: LoopState,
    action: LoopAction,
)
    requires
        goes(state, event, config, now, next, action),
        action is Connect,
    ensures
        state is Asking,
        event matches LoopEvent::Url(Ok(reply)) && url_of(reply) matches Ok(url)
            && action->Connect_0@ == url,
{
}

/// Whether the loop holds a connection in this state.
pub open spec fn is_connected(state: LoopState) -> bool {
    ||| state is Reading
    ||| state is Acking
    ||| state is Ponging
    ||| state is Delivering
}

/// However a connection ends, the loop then waits for at least a second, and it
/// begins anew only after a wait.
pub proof fn law_reconnect(
    state: LoopState,
    event: LoopEvent,
    config: SlackConfigView,
    now: Timestamp,
    next: LoopState,
    action: LoopAction,
)
    requires
        in_bounds(state),
        goes(state, event, config, now, next, action),
    ensures
        is_connected(state) && !is_connected(next)
            ==> (action matches LoopAction::Sleep { secs, .. }
            && secs >= RECONNECT_INITIAL_BACKOFF),
        next is Waiting <==> action is Sleep,
        next is Checking <==> state is Waiting,
        state is Waiting ==> backoff_of(next) == backoff_of(state),
{
}

/// Whether these are the states, results and actions of a run of the loop.
pub open spec fn is_run(
    states: Seq<LoopState>,
    events: Seq<LoopEvent>,
    clock: Seq<Timestamp>,
    actions: Seq<LoopAction>,
    config: SlackConfigView,
) -> bool {
    &&& states.len() == actions.len() + 1
    &&& events.len() == actions.len()
    &&& clock.len() == actions.len()
    &&& in_bounds(states[0])
    &&& forall|i: int|
        0 <= i < actions.len() ==> goes(
            states[i],
            events[i],
            config,
            clock[i],
            states[i + 1],
            #[trigger] actions[i],
        )
}

proof fn lemma_run_in_bounds(
    states: Seq<LoopState>,
    events: Seq<LoopEvent>,
    clock: Seq<Timestamp>,
    actions: Seq<LoopAction>,
    config: SlackConfigView,
    i: int,
)
    requires
        is_run(states, events, clock, actions, config),
        0 <= i < states.len(),
    ensures
        in_bounds(states[i]),
    decreases i,
{
    if i > 0 {
        lemma_run_in_bounds(states, events, clock, actions, config, i - 1);
        law_bounded_delay(
            states[i - 1],
            events[i - 1],
            config,
            clock[i - 1],
            states[i],
            actions[i - 1],
        );
    }
}

/// In every run, between one request for a URL and the next the loop waits for
/// at least a second, and at most a minute.
pub proof fn law_requests_are_apart(
    states: Seq<LoopState>,
    events: Seq<LoopEvent>,
    clock: Seq<Timestamp>,
    actions: Seq<LoopAction>,
    config: SlackConfigView,
    first: int,
    second: int,
)
    requires
        is_run(states, events, clock, actions, config),
        0 <= first < second < actions.len(),
        actions[first] is AskUrl,
        actions[second] is AskUrl,
    ensures
        exists|wait: int|
            first < wait < second
                && (#[trigger] actions[wait] matches LoopAction::Sleep { secs, .. }
                && RECONNECT_INITIAL_BACKOFF <= secs <= RECONNECT_MAX_BACKOFF),
{
    assert(states[second] is Checking);
    assert(states[first + 1] is Asking);
    assert(actions[second - 1] is CheckReceiver);
    assert(states[second - 1] is Waiting);
    let wait = second - 2;
    lemma_run_in_bounds(states, events, clock, actions, config, wait);
    assert(goes(states[wait], events[wait], config, clock[wait], states[wait + 1], actions[wait]));
    assert(actions[wait] is Sleep);
}

/// The delay counts the failures since the last clean end: the first failure
/// waits for the first delay, each failure after it for the next, and a clean
/// end starts the count anew.
pub proof fn law_delay_counts_failures(
    state: LoopState,
    event: LoopEvent,
    config: SlackConfigView,
    now: Timestamp,
    next: LoopState,
    action: LoopAction,
    failures: nat,
)
    requires
        backoff_of(state) matches Some(backoff) && backoff == backoff_after(failures),
        goes(state, event, config, now, next, action),
    ensures
        action matches LoopAction::Sleep { secs, reason } ==> {
            let clean = reason@ == SocketErrorView::Closed;
            &&& secs == backoff_after(if clean { 0 } else { failures })
            &&& backoff_of(next) matches Some(then)
            &&& then == backoff_after(if clean { 0 } else { failures + 1 })
        },
        !(action is Sleep) && !(action is Exit) ==> (backoff_of(next) matches Some(kept) && kept
            == backoff_after(failures)),
{
}

/// The loop ends where nobody listens any more, and only there.
pub proof fn law_exit(
    state: LoopState,
    event: LoopEvent,
    config: SlackConfigView,
    now: Timestamp,
    next: LoopState,
    action: LoopAction,
)
    requires
        goes(state, event, config, now, next, action),
    ensures
        action is Exit <==> state is Checking && event == (LoopEvent::Receiver { closed: true }),
        action is Exit <==> next is Stopped,
{
}

/// An event is delivered only once its envelope has been acknowledged, where it
/// has an id; whether the ack went out makes no difference.
pub proof fn law_ack_first(
    state: LoopState,
    event: LoopEvent,
    config: SlackConfigView,
    now: Timestamp,
    next: LoopState,
    action: LoopAction,
)
    requires
        goes(state, event, config, now, next, action),
        action is Deliver,
    ensures
        match state {
            LoopState::Acking { .. } => event is Sent,
            LoopState::Reading { .. } => event matches LoopEvent::Message(
                Some(Ok(SocketMessage::Text(text))),
            ) && frame_outcome(parsed_json(text@), config, now).ack is None,
            _ => false,
        },
{
}

/// A loop that begins a cycle stops where nobody listens, and otherwise asks for
/// a URL with the app-level token; without one the cycle fails.
pub proof fn law_step_checking(
    config: SlackConfigView,
    now: Timestamp,
    next: LoopState,
    action: LoopAction,
    backoff: u64,
    closed: bool,
)
    requires
        goes(
            LoopState::Checking { backoff },
            LoopEvent::Receiver { closed },
            config,
            now,
            next,
            action,
        ),
    ensures
        closed ==> next is Stopped && action is Exit,
        !closed ==> (config.app_token matches Some(token) ==> next
            == (LoopState::Asking { backoff })
            && (action matches LoopAction::AskUrl(request) && request.url@ == config.slack_api_base
            + "/apps.connections.open"@ && request.bearer@ == token && request.content_type@
            == "application/x-www-form-urlencoded"@)),
        !closed && config.app_token is None
            ==> (next matches LoopState::Waiting { backoff: longer } && longer
                == (if backoff <= 30 {
            2 * backoff
        } else {
            60
        }) && (action matches LoopAction::Sleep { secs, reason } && secs == backoff && reason@
            == SocketErrorView::MissingAppToken)),
{
}

/// A loop that asked for a URL and gets one with a 2xx status connects to it,
/// character by character.
pub proof fn law_step_url(
    config: SlackConfigView,
    now: Timestamp,
    next: LoopState,
    action: LoopAction,
    backoff: u64,
    reply: UrlReply,
    answer: AppsConnectionsOpenResponse,
    url: String,
)
    requires
        goes(
            LoopState::Asking { backoff },
            LoopEvent::Url(Ok(reply)),
            config,
            now,
            next,
            action,
        ),
        200 <= reply.status < 300,
        reply.body is Some,
        reply.decoded == Some(answer),
        answer.ok,
        answer.url == Some(url),
    ensures
        action matches LoopAction::Connect(given) && given@ == url@,
        next matches LoopState::Connecting { backoff: kept, url: asked } && kept == backoff
            && asked@
            == url@,
{
}

/// A loop that asked for a URL and gets none waits, and says why.
pub proof fn law_step_no_url(
    config: SlackConfigView,
    now: Timestamp,
    next: LoopState,
    action: LoopAction,
    backoff: u64,
    reply: Result<UrlReply, String>,
)
    requires
        goes(LoopState::Asking { backoff }, LoopEvent::Url(reply), config, now, next, action),
    ensures
        reply matches Err(message) ==> (next matches LoopState::Waiting { backoff: longer }
            && longer == (if backoff <= 30 {
            2 * backoff
        } else {
            60
        }) && (action matches LoopAction::Sleep { secs, reason } && secs == backoff && reason@
            == SocketErrorView::Transport(message@))),
        reply matches Ok(given) ==> (given.body matches Some(body) ==> (socket_url_of(
            given.status,
            body@,
            given.decoded,
        ) matches Err(why) ==> (next matches LoopState::Waiting { backoff: longer } && longer
            == (if backoff <= 30 {
            2 * backoff
        } else {
            60
        }) && (action matches LoopAction::Sleep { secs, reason } && secs == backoff && reason@
            == why)))),
        reply matches Ok(given) ==> (given.body is None ==> (socket_url_of(
            given.status,
            Seq::empty(),
            None,
        ) matches Err(why) ==> (next matches LoopState::Waiting { backoff: longer } && longer
            == (if backoff <= 30 {
            2 * backoff
        } else {
            60
        }) && (action matches LoopAction::Sleep { secs, reason } && secs == backoff && reason@
            == why)))),
        reply matches Ok(given) ==> (given.body is None ==> !(action is Connect)),
{
}

/// A loop that connects reads once the connection stands, and waits where it
/// does not.
pub proof fn law_step_connecting(
    config: SlackConfigView,
    now: Timestamp,
    next: LoopState,
    action: LoopAction,
    backoff: u64,
    url: String,
    stands: bool,
)
    requires
        goes(
            LoopState::Connecting { backoff, url },
            LoopEvent::Connected(stands),
            config,
            now,
            next,
            action,
        ),
    ensures
        stands ==> next == (LoopState::Reading { backoff }) && action is Read,
        !stands ==> (next matches LoopState::Waiting { backoff: longer } && longer
            == (if backoff <= 30 {
            2 * backoff
        } else {
            60
        }) && (action matches LoopAction::Sleep { secs, reason } && secs == backoff && reason@
            == SocketErrorView::Connect(url@))),
{
}

/// A loop that reads a text frame sends its ack first, where it has one, and
/// keeps the verdict; without one it carries out the verdict.
pub proof fn law_step_text(
    config: SlackConfigView,
    now: Timestamp,
    next: LoopState,
    action: LoopAction,
    backoff: u64,
    text: String,
)
    requires
        goes(
            LoopState::Reading { backoff },
            LoopEvent::Message(Some(Ok(SocketMessage::Text(text)))),
            config,
            now,
            next,
            action,
        ),
    ensures
        ({
            let outcome = frame_outcome(parsed_json(text@), config, now);
            &&& outcome.ack matches Some(ack) ==> (action matches LoopAction::SendAck(frame)
                && frame@
                == ack) && (next matches LoopState::Acking { backoff: kept, verdict } && kept
                == backoff && verdict@ == outcome.verdict)
            &&& outcome.ack is None && outcome.verdict is Skip ==> next == (LoopState::Reading {
                backoff,
            }) && action is Read
            &&& outcome.ack is None ==> (outcome.verdict matches VerdictView::Emit(event) ==> next
                == (LoopState::Delivering { backoff }) && (action matches LoopAction::Deliver(given)
                && given@ == event))
            &&& outcome.ack is None && outcome.verdict is Disconnect
                ==> (next matches LoopState::Waiting { backoff: longer } && longer
                    == (if backoff <= 30 {
            2 * backoff
        } else {
            60
        }) && (action matches LoopAction::Sleep { secs, reason } && secs == backoff && reason@
            == SocketErrorView::Disconnect))
        }),
{
}

/// A loop that reads anything else answers a ping with its payload, passes over
/// what carries nothing, and waits where the connection has ended or failed.
pub proof fn law_step_reading(
    config: SlackConfigView,
    now: Timestamp,
    next: LoopState,
    action: LoopAction,
    backoff: u64,
    message: Option<Result<SocketMessage, String>>,
)
    requires
        goes(
            LoopState::Reading { backoff },
            LoopEvent::Message(message),
            config,
            now,
            next,
            action,
        ),
    ensures
        message matches Some(Ok(SocketMessage::Ping(payload))) ==> next == (LoopState::Ponging {
            backoff,
        }) && action == LoopAction::SendPong(payload),
        message matches Some(Ok(SocketMessage::Pong(_))) ==> next
            == (LoopState::Reading { backoff })
            && action is Read,
        message matches Some(Ok(SocketMessage::Binary(_))) ==> next == (LoopState::Reading {
            backoff,
        }) && action is Read,
        message matches Some(Ok(SocketMessage::Raw)) ==> next == (LoopState::Reading { backoff })
            && action is Read,
        message is None || message == Some(
            Ok::<SocketMessage, String>(SocketMessage::Close),
        ) ==> next
            == (LoopState::Waiting { backoff: 1 }) && (action matches LoopAction::Sleep {
            secs,
            reason,
        } && secs == 1 && reason@ == SocketErrorView::Closed),
        message matches Some(Err(_)) ==> (next matches LoopState::Waiting { backoff: longer }
            && longer == (if backoff <= 30 {
            2 * backoff
        } else {
            60
        }) && (action matches LoopAction::Sleep { secs, reason } && secs == backoff && reason@
            == SocketErrorView::Read)),
{
}

/// A loop whose ack went out, or did not, carries out the verdict that it kept.
pub proof fn law_step_acking(
    config: SlackConfigView,
    now: Timestamp,
    next: LoopState,
    action: LoopAction,
    backoff: u64,
    verdict: Verdict,
    sent: bool,
)
    requires
        goes(
            LoopState::Acking { backoff, verdict },
            LoopEvent::Sent(sent),
            config,
            now,
            next,
            action,
        ),
    ensures
        verdict is Skip ==> next == (LoopState::Reading { backoff }) && action is Read,
        verdict matches Verdict::Emit(event) ==> next == (LoopState::Delivering { backoff }) && (
        action matches LoopAction::Deliver(given) && given@ == event@),
        verdict is Disconnect ==> (next matches LoopState::Waiting { backoff: longer } && longer
            == (if backoff <= 30 {
            2 * backoff
        } else {
            60
        }) && (action matches LoopAction::Sleep { secs, reason } && secs == backoff && reason@
            == SocketErrorView::Disconnect)),
{
}

/// A loop whose pong went out, or whose event was taken, reads on, and otherwise
/// waits; after a wait it begins anew with the delay that it kept.
pub proof fn law_step_after(
    config: SlackConfigView,
    now: Timestamp,
    next: LoopState,
    action: LoopAction,
    backoff: u64,
    state: LoopState,
    event: LoopEvent,
    done: bool,
)
    requires
        goes(state, event, config, now, next, action),
    ensures
        state == (LoopState::Ponging { backoff }) && event == LoopEvent::Sent(done) ==> (done
            ==> next
            == (LoopState::Reading { backoff }) && action is Read) && (!done
                ==> (next matches LoopState::Waiting { backoff: longer } && longer
                    == (if backoff <= 30 {
            2 * backoff
        } else {
            60
        }) && (action matches LoopAction::Sleep { secs, reason } && secs == backoff && reason@
            == SocketErrorView::Pong))),
        state == (LoopState::Delivering { backoff }) && event == LoopEvent::Delivered(done)
            ==> (done
            ==> next == (LoopState::Reading { backoff }) && action is Read) && (!done
                ==> (next matches LoopState::Waiting { backoff: longer } && longer
                    == (if backoff <= 30 {
            2 * backoff
        } else {
            60
        }) && (action matches LoopAction::Sleep { secs, reason } && secs == backoff && reason@
            == SocketErrorView::ChannelClosed))),
        state == (LoopState::Waiting { backoff }) ==> next == (LoopState::Checking { backoff })
            && action is CheckReceiver,
{
}

/// The loop starts with a check and the first delay.
pub proof fn law_start(next: LoopState, action: LoopAction, backoff: int)
    requires
        begins(next, action, backoff),
    ensures
        next matches LoopState::Checking { backoff: kept } && kept == backoff,
        action is CheckReceiver,
        RECONNECT_INITIAL_BACKOFF == 1,
        RECONNECT_MAX_BACKOFF == 60,
{
}

/// Each state waits for its own results, all of them.
pub proof fn law_awaited(
    backoff: u64,
    url: String,
    verdict: Verdict,
    reply: Result<UrlReply, String>,
    message: Option<Result<SocketMessage, String>>,
    b: bool,
)
    ensures
        awaits(LoopState::Checking { backoff }, LoopEvent::Receiver { closed: b }),
        reply is Err ==> awaits(LoopState::Asking { backoff }, LoopEvent::Url(reply)),
        reply matches Ok(given) ==> (100 <= given.status <= 999 ==> awaits(
            LoopState::Asking { backoff },
            LoopEvent::Url(reply),
        )),
        awaits(LoopState::Connecting { backoff, url }, LoopEvent::Connected(b)),
        awaits(LoopState::Reading { backoff }, LoopEvent::Message(message)),
        awaits(LoopState::Acking { backoff, verdict }, LoopEvent::Sent(b)),
        awaits(LoopState::Ponging { backoff }, LoopEvent::Sent(b)),
        awaits(LoopState::Delivering { backoff }, LoopEvent::Delivered(b)),
        awaits(LoopState::Waiting { backoff }, LoopEvent::Slept),
{
}

/// An ack that the loop sends reads back as what names the envelope of the text
/// that it has just read.
pub proof fn law_ack_answers(ack: Seq<char>, event: LoopEvent)
    requires
        answers(ack, event),
    ensures
        event matches LoopEvent::Message(Some(Ok(SocketMessage::Text(text)))) && acknowledges(
            ack,
            parsed_json(text@),
        ),
{
}

} // verus!
