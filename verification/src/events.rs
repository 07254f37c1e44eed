//! Slack event JSON to [`TriggerEvent`] mapping.
//!
//! Two Slack event types are surfaced:
//!
//! - `app_mention` becomes `slack.mention`
//! - `message` with `channel_type == "im"` becomes `slack.dm`
//!
//! Other Slack event payloads (channel messages, reactions, joins, ...) are
//! ignored. The full Slack event JSON is preserved in `payload`, so that a
//! workflow can template against its fields.

use crate::json::{Json, JsonView};
use crate::text::{
    cut_at, digits_value, find, is_digit, is_digits, lemma_cut_at, parse_i64, parse_u32, parsed_i64,
    parsed_u32, same_text,
};
use crate::time::{is_instant, utc_instant, utc_now, Timestamp, MAX_SECS};
use vstd::prelude::*;
use vstd::string::*;

verus! {

/// `kind` emitted for `app_mention` events.
pub const KIND_SLACK_MENTION: &'static str = "slack.mention";

/// `kind` emitted for `message.im` events (direct messages to the bot).
pub const KIND_SLACK_DM: &'static str = "slack.dm";

/// `action_hint` set on both mention and DM events. The daemon's event router
/// makes the final routing decision.
pub const ACTION_HINT_CREATE_TASK: &'static str = "create_task";

/// An event as the trigger protocol carries it.
#[derive(Debug)]
pub struct TriggerEvent {
    pub id: String,
    pub occurred_at: Timestamp,
    pub kind: String,
    pub payload: Json,
    pub subject_id: Option<String>,
    pub action_hint: Option<String>,
}

/// What an event says.
pub struct TriggerEventView {
    pub id: Seq<char>,
    pub occurred_at: Timestamp,
    pub kind: Seq<char>,
    pub payload: JsonView,
    pub subject_id: Option<Seq<char>>,
    pub action_hint: Option<Seq<char>>,
}

impl View for TriggerEvent {
    type V = TriggerEventView;

    open spec fn view(&self) -> TriggerEventView {
        TriggerEventView {
            id: self.id@,
            occurred_at: self.occurred_at,
            kind: self.kind@,
            payload: self.payload@,
            subject_id: self.subject_id.deep_view(),
            action_hint: self.action_hint.deep_view(),
        }
    }
}

/// `text`, or `other` where there is none.
pub open spec fn text_or(text: Option<Seq<char>>, other: Seq<char>) -> Seq<char> {
    match text {
        Some(s) => s,
        None => other,
    }
}

/// The first nine characters of a fraction, filled up with zeros.
pub open spec fn nine_digits(fraction: Seq<char>) -> Seq<char> {
    Seq::new(
        9,
        |i: int|
            if i < fraction.len() {
                fraction[i]
            } else {
                '0'
            },
    )
}

/// The seconds of a Slack `ts`: what stands before its first dot.
pub open spec fn ts_seconds(ts: Seq<char>) -> Seq<char> {
    ts.take(cut_at(ts, '.') as int)
}

/// The fraction of a Slack `ts`: what stands after its first dot.
pub open spec fn ts_fraction(ts: Seq<char>) -> Seq<char> {
    if cut_at(ts, '.') < ts.len() {
        ts.skip(cut_at(ts, '.') as int + 1)
    } else {
        "0"@
    }
}

/// The point in time that a Slack `ts` names: a number of seconds and a
/// fraction of a second.
pub open spec fn ts_instant(ts: Seq<char>) -> Option<Timestamp> {
    match (parsed_i64(ts_seconds(ts)), parsed_u32(nine_digits(ts_fraction(ts)))) {
        (Some(secs), Some(nanos)) => if is_instant(secs as int, nanos as int) {
            Some(Timestamp { secs, nanos })
        } else {
            None
        },
        _ => None,
    }
}

/// When an event happened, where it says so.
pub open spec fn event_instant(event: JsonView) -> Option<Timestamp> {
    match event.text_at("ts"@) {
        Some(ts) => ts_instant(ts),
        None => None,
    }
}

/// The team of an event.
pub open spec fn event_team(event: JsonView) -> Seq<char> {
    match event.text_at("team"@) {
        Some(team) => team,
        None => text_or(event.text_at("team_id"@), "unknown"@),
    }
}

/// The channel of an event.
pub open spec fn event_channel(event: JsonView) -> Seq<char> {
    text_or(event.text_at("channel"@), "unknown"@)
}

/// The identity of an event: `slack:<team>/<channel>/<ts>`.
pub open spec fn event_id(event: JsonView) -> Seq<char> {
    "slack:"@ + event_team(event) + "/"@ + event_channel(event) + "/"@ + text_or(
        event.text_at("ts"@),
        "0"@,
    )
}

/// The kind under which an event is surfaced, where it is.
pub open spec fn surfaced_kind(event: JsonView) -> Option<Seq<char>> {
    if event.text_at("type"@) == Some("app_mention"@) {
        Some(KIND_SLACK_MENTION@)
    } else if event.text_at("type"@) == Some("message"@) && event.text_at("channel_type"@) == Some(
        "im"@,
    ) && event.text_at("subtype"@) is None {
        Some(KIND_SLACK_DM@)
    } else {
        None
    }
}

/// The trigger event for a Slack event of this kind. It happened when the
/// Slack event says, or `now`.
pub open spec fn event_of_kind(kind: Seq<char>, event: JsonView,
    now: Timestamp) -> TriggerEventView {
    TriggerEventView {
        id: event_id(event),
        occurred_at: match event_instant(event) {
            Some(at) => at,
            None => now,
        },
        kind,
        payload: event,
        subject_id: None,
        action_hint: Some(ACTION_HINT_CREATE_TASK@),
    }
}

/// The trigger event for a Slack event, where it is surfaced.
pub open spec fn trigger_event(event: JsonView, now: Timestamp) -> Option<TriggerEventView> {
    match surfaced_kind(event) {
        Some(kind) => Some(event_of_kind(kind, event, now)),
        None => None,
    }
}

/// Parse a Slack `ts` string (e.g. `"1715701234.000100"`). Returns `None` on
/// parse failure.
pub fn parse_slack_ts(ts: &str) -> (r: Option<Timestamp>)
    ensures
        r == ts_instant(ts@),
{
    let n: usize = ts.unicode_len();
    let cut: usize = find(ts, '.');
    let seconds: &str = ts.substring_char(0, cut);
    let fraction: &str = if cut < n {
        ts.substring_char(cut + 1, n)
    } else {
        "0"
    };
    let digits: String = fill_nanos(fraction);
    proof {
        assert(seconds@ =~= ts_seconds(ts@));
        if cut < n {
            assert(fraction@ =~= ts@.skip(cut + 1));
        }
    }
    match parse_i64(seconds) {
        Some(secs) => match parse_u32(digits.as_str()) {
            Some(nanos) => utc_instant(secs, nanos),
            None => None,
        },
        None => None,
    }
}

/// Slack writes microseconds with six digits: fills up, or cuts, to nine for
/// nanoseconds.
fn fill_nanos(fraction: &str) -> (r: String)
    ensures
        r@ == nine_digits(fraction@),
{
    let n: usize = fraction.unicode_len();
    if n >= 9 {
        let head: &str = fraction.substring_char(0, 9);
        assert(head@ =~= nine_digits(fraction@));
        return head.to_string();
    }
    let mut digits: String = fraction.to_string();
    let mut len: usize = n;
    while len < 9
        invariant
            n == fraction@.len(),
            n <= len <= 9,
            digits@.len() == len,
            forall|i: int| 0 <= i < len ==> #[trigger] digits@[i] == nine_digits(fraction@)[i],
        decreases 9 - len,
    {
        proof {
            reveal_strlit("0");
        }
        digits.append("0");
        len = len + 1;
    }
    assert(digits@ =~= nine_digits(fraction@));
    digits
}

/// Build a stable event id of the form `slack:<team>/<channel>/<ts>`, so that
/// a redelivered event can be deduplicated.
pub fn build_event_id(slack_event: &Json) -> (r: String)
    ensures
        r@ == event_id(slack_event@),
{
    let team: &str = match slack_event.text_at("team") {
        Some(team) => team,
        None => match slack_event.text_at("team_id") {
            Some(team) => team,
            None => "unknown",
        },
    };
    let channel: &str = match slack_event.text_at("channel") {
        Some(channel) => channel,
        None => "unknown",
    };
    let ts: &str = match slack_event.text_at("ts") {
        Some(ts) => ts,
        None => "0",
    };
    let mut id: String = "slack:".to_string();
    id.append(team);
    id.append("/");
    id.append(channel);
    id.append("/");
    id.append(ts);
    id
}

/// The trigger event of this kind for a Slack event. It happened when the
/// Slack event says, or `now`.
pub fn build_event(kind: &str, slack_event: &Json, now: Timestamp) -> (r: TriggerEvent)
    ensures
        r@ == event_of_kind(kind@, slack_event@, now),
        r.kind@ == kind@,
        r.payload@ == slack_event@,
        r.subject_id is None,
        r.action_hint is Some && r.action_hint->0@ == "create_task"@,
{
    let at: Option<Timestamp> = match slack_event.text_at("ts") {
        Some(ts) => parse_slack_ts(ts),
        None => None,
    };
    let occurred_at: Timestamp = match at {
        Some(at) => at,
        None => now,
    };
    TriggerEvent {
        id: build_event_id(slack_event),
        occurred_at,
        kind: kind.to_string(),
        payload: slack_event.clone(),
        subject_id: None,
        action_hint: Some(ACTION_HINT_CREATE_TASK.to_string()),
    }
}

/// Map a raw Slack event payload (the inner `event` object of an
/// `event_callback` envelope) into a [`TriggerEvent`], with `now` for the time
/// of an event that does not say when it happened.
pub fn map_slack_event_at(slack_event: &Json, now: Timestamp) -> (r: Option<TriggerEvent>)
    ensures
        match r {
            Some(event) => trigger_event(slack_event@, now) == Some(event@),
            None => trigger_event(slack_event@, now) is None,
        },
        slack_event@.text_at("type"@) == Some("app_mention"@) ==> (r matches Some(event)
            && event.kind@ == "slack.mention"@),
        slack_event@.text_at("type"@) == Some("message"@) && slack_event@.text_at("channel_type"@)
            == Some("im"@) && slack_event@.text_at("subtype"@) is None ==> (r matches Some(event)
            && event.kind@ == "slack.dm"@),
        r matches Some(event) ==> event.payload@ == slack_event@,
{
    proof {
        law_surfaced(slack_event@, now);
    }
    let event_type: &str = match slack_event.text_at("type") {
        Some(event_type) => event_type,
        None => return None,
    };
    if same_text(event_type, "app_mention") {
        return Some(build_event(KIND_SLACK_MENTION, slack_event, now));
    }
    if same_text(event_type, "message") {
        // Slack's edited, deleted and bot echo messages carry a subtype.
        if let Some(channel_type) = slack_event.text_at("channel_type") {
            if same_text(channel_type, "im") && slack_event.text_at("subtype").is_none() {
                return Some(build_event(KIND_SLACK_DM, slack_event, now));
            }
        }
    }
    None
}

/// Map a raw Slack event payload into a [`TriggerEvent`], returning `None` for
/// event types that are not surfaced. An event that does not say when it
/// happened happened now.
///
/// The caller is responsible for channel filtering: see
/// [`crate::config::SlackConfig::channel_allowed`].
pub fn map_slack_event(slack_event: &Json) -> (r: Option<TriggerEvent>)
    ensures
        r is None <==> surfaced_kind(slack_event@) is None,
        r matches Some(event) ==> exists|now: Timestamp|
            is_instant(now.secs as int, now.nanos as int) && Some(event@)
                == #[trigger] trigger_event(
                slack_event@,
                now,
            ),
        slack_event@.text_at("type"@) == Some("app_mention"@) ==> (r matches Some(event)
            && event.kind@ == "slack.mention"@),
        slack_event@.text_at("type"@) == Some("message"@) && slack_event@.text_at("channel_type"@)
            == Some("im"@) && slack_event@.text_at("subtype"@) is None ==> (r matches Some(event)
            && event.kind@ == "slack.dm"@),
        r matches Some(event) ==> event.payload@ == slack_event@,
{
    map_slack_event_at(slack_event, utc_now())
}

/// An event's id rests on its team, channel and `ts` alone: however often Slack
/// delivers it, whenever that is and whatever else it then holds, the id stays.
pub proof fn law_id_is_stable(a: JsonView, b: JsonView, now_a: Timestamp, now_b: Timestamp)
    requires
        a.text_at("team"@) == b.text_at("team"@),
        a.text_at("team_id"@) == b.text_at("team_id"@),
        a.text_at("channel"@) == b.text_at("channel"@),
        a.text_at("ts"@) == b.text_at("ts"@),
        trigger_event(a, now_a) is Some,
        trigger_event(b, now_b) is Some,
    ensures
        trigger_event(a, now_a)->0.id == trigger_event(b, now_b)->0.id,
{
}

proof fn lemma_first_slash(a: Seq<char>, x: Seq<char>, b: Seq<char>, y: Seq<char>)
    requires
        !a.contains('/'),
        !b.contains('/'),
        a + "/"@ + x == b + "/"@ + y,
    ensures
        a == b,
        x == y,
{
    reveal_strlit("/");
    let left = a + "/"@ + x;
    let right = b + "/"@ + y;
    assert(left[a.len() as int] == '/');
    assert(right[b.len() as int] == '/');
    if a.len() < b.len() {
        assert(right[a.len() as int] == b[a.len() as int]);
    } else if b.len() < a.len() {
        assert(left[b.len() as int] == a[b.len() as int]);
    }
    assert forall|i: int| 0 <= i < a.len() implies a[i] == b[i] by {
        assert(left[i] == right[i]);
    }
    assert(a =~= b);
    assert(x =~= left.skip(a.len() as int + 1));
    assert(y =~= right.skip(b.len() as int + 1));
}

proof fn lemma_id_parts(
    team_a: Seq<char>,
    channel_a: Seq<char>,
    ts_a: Seq<char>,
    team_b: Seq<char>,
    channel_b: Seq<char>,
    ts_b: Seq<char>,
)
    requires
        !team_a.contains('/'),
        !channel_a.contains('/'),
        !team_b.contains('/'),
        !channel_b.contains('/'),
        "slack:"@ + team_a + "/"@ + channel_a + "/"@ + ts_a == "slack:"@ + team_b + "/"@ + channel_b
            + "/"@ + ts_b,
    ensures
        team_a == team_b,
        channel_a == channel_b,
        ts_a == ts_b,
{
    let head = "slack:"@;
    let slash = "/"@;
    let id_a = head + team_a + slash + channel_a + slash + ts_a;
    let id_b = head + team_b + slash + channel_b + slash + ts_b;
    let rest_a = channel_a + slash + ts_a;
    let rest_b = channel_b + slash + ts_b;
    let tail_a = team_a + slash + rest_a;
    let tail_b = team_b + slash + rest_b;
    assert(id_a =~= head + tail_a);
    assert(id_b =~= head + tail_b);
    assert(tail_a =~= (head + tail_a).skip(head.len() as int));
    assert(tail_b =~= (head + tail_b).skip(head.len() as int));
    lemma_first_slash(team_a, rest_a, team_b, rest_b);
    lemma_first_slash(channel_a, ts_a, channel_b, ts_b);
}

/// Two events with one id come from one team and channel and have one `ts`.
/// Slack's team and channel ids hold no slash.
pub proof fn law_id_tells_apart(a: JsonView, b: JsonView)
    requires
        !event_team(a).contains('/'),
        !event_channel(a).contains('/'),
        !event_team(b).contains('/'),
        !event_channel(b).contains('/'),
        event_id(a) == event_id(b),
    ensures
        event_team(a) == event_team(b),
        event_channel(a) == event_channel(b),
        text_or(a.text_at("ts"@), "0"@) == text_or(b.text_at("ts"@), "0"@),
{
    lemma_id_parts(
        event_team(a),
        event_channel(a),
        text_or(a.text_at("ts"@), "0"@),
        event_team(b),
        event_channel(b),
        text_or(b.text_at("ts"@), "0"@),
    );
}

/// A surfaced event keeps the whole Slack event as its payload, hints at a new
/// task, names no subject, and is a mention or a direct message.
pub proof fn law_surfaced_event(event: JsonView, now: Timestamp)
    requires
        trigger_event(event, now) is Some,
    ensures
        trigger_event(event, now)->0.payload == event,
        trigger_event(event, now)->0.action_hint == Some(ACTION_HINT_CREATE_TASK@),
        trigger_event(event, now)->0.subject_id is None,
        trigger_event(event, now)->0.kind
            == KIND_SLACK_MENTION@ || trigger_event(event, now)->0.kind
            == KIND_SLACK_DM@,
{
}

/// Whether an event is surfaced does not depend on the clock, and neither does
/// anything about one that says when it happened.
pub proof fn law_clock(event: JsonView, now: Timestamp, later: Timestamp)
    ensures
        trigger_event(event, now) is Some <==> trigger_event(event, later) is Some,
        event_instant(event) is Some ==> trigger_event(event, now) == trigger_event(event, later),
{
}

/// A surfaced event happened at a point that a UTC date and time can name,
/// where the clock gives one.
pub proof fn law_occurred_at(event: JsonView, now: Timestamp)
    requires
        is_instant(now.secs as int, now.nanos as int),
        trigger_event(event, now) is Some,
    ensures
        ({
            let at = trigger_event(event, now)->0.occurred_at;
            is_instant(at.secs as int, at.nanos as int)
        }),
{
}

spec fn zero_digits(n: nat) -> Seq<char> {
    Seq::new(n, |i: int| '0')
}

proof fn lemma_zeros(s: Seq<char>, zeros: nat)
    requires
        is_digits(s),
    ensures
        is_digits(s + zero_digits(zeros)),
        digits_value(s + zero_digits(zeros)) == digits_value(s) * pow10(zeros),
    decreases zeros,
{
    let padded = s + zero_digits(zeros);
    let value = digits_value(s);
    if zeros == 0 {
        assert(padded =~= s);
        assert(value * 1 == value) by (nonlinear_arith);
    } else {
        let fewer = s + zero_digits((zeros - 1) as nat);
        lemma_zeros(s, (zeros - 1) as nat);
        assert(padded.drop_last() =~= fewer);
        assert forall|i: int| 0 <= i < padded.len() implies #[trigger] is_digit(padded[i]) by {
            if i < fewer.len() {
                assert(is_digit(fewer[i]));
            }
        }
        assert(padded.last() == '0');
        assert(digits_value(padded) == 10 * digits_value(fewer));
        let power = pow10((zeros - 1) as nat);
        assert(pow10(zeros) == 10 * power);
        assert(10 * (value * power) == value * (10 * power)) by (nonlinear_arith);
    }
}

/// Ten to the power of `n`.
pub open spec fn pow10(n: nat) -> nat
    decreases n,
{
    if n == 0 {
        1
    } else {
        10 * pow10((n - 1) as nat)
    }
}

/// A `ts` of seconds, a dot and up to nine digits names that second, and the
/// fraction that the digits write: six digits are microseconds.
pub proof fn law_ts(seconds: Seq<char>, fraction: Seq<char>)
    requires
        is_digits(seconds),
        is_digits(fraction),
        fraction.len() <= 9,
        digits_value(seconds) <= MAX_SECS,
    ensures
        ts_instant(seconds.push('.') + fraction) == Some(
            Timestamp {
                secs: digits_value(seconds) as i64,
                nanos: (digits_value(fraction) * pow10((9 - fraction.len()) as nat)) as u32,
            },
        ),
        digits_value(fraction) * pow10((9 - fraction.len()) as nat) < 1_000_000_000,
{
    let ts = seconds.push('.') + fraction;
    assert forall|k: int| 0 <= k < seconds.len() implies ts[k] != '.' by {
        assert(is_digit(seconds[k]));
        assert(ts[k] == seconds[k]);
    }
    lemma_cut_at(ts, '.', seconds.len() as int);
    assert(ts_seconds(ts) =~= seconds);
    assert(ts_fraction(ts) =~= fraction);
    let zeros = (9 - fraction.len()) as nat;
    let nine = nine_digits(fraction);
    assert(nine =~= fraction + zero_digits(zeros));
    lemma_zeros(fraction, zeros);
    assert(is_digit(seconds[0]));
    lemma_digits_bound(nine);
    assert(pow10(9) == 1_000_000_000) by {
        reveal_with_fuel(pow10, 10);
    }
}

proof fn lemma_digits_bound(s: Seq<char>)
    requires
        forall|i: int| 0 <= i < s.len() ==> #[trigger] is_digit(s[i]),
    ensures
        digits_value(s) < pow10(s.len()),
    decreases s.len(),
{
    if s.len() > 0 {
        assert(is_digit(s[s.len() - 1]));
        assert forall|i: int| 0 <= i < s.drop_last().len() implies #[trigger] is_digit(
            s.drop_last()[i],
        ) by {
            assert(is_digit(s[i]));
        }
        lemma_digits_bound(s.drop_last());
    }
}

/// What is surfaced, and as what: every event of type `app_mention` as
/// `slack.mention`, every `message` of channel type `im` without a subtype as
/// `slack.dm`, whatever else it holds, and no other event.
pub proof fn law_surfaced(event: JsonView, now: Timestamp)
    ensures
        event.text_at("type"@) == Some("app_mention"@) ==> (trigger_event(event, now) matches Some(
            surfaced,
        ) && surfaced.kind == "slack.mention"@),
        event.text_at("type"@) == Some("message"@) && event.text_at("channel_type"@) == Some("im"@)
            && event.text_at("subtype"@) is None ==> (trigger_event(event, now) matches Some(
            surfaced,
        ) && surfaced.kind == "slack.dm"@),
        trigger_event(event, now) is Some ==> event.text_at("type"@) == Some("app_mention"@) || (
        event.text_at("type"@) == Some("message"@) && event.text_at("channel_type"@) == Some("im"@)
            && event.text_at("subtype"@) is None),
        surfaced_kind(event) is Some <==> trigger_event(event, now) is Some,
        trigger_event(event, now) matches Some(surfaced) ==> surfaced.payload == event
            && surfaced.subject_id is None && surfaced.action_hint == Some("create_task"@),
{
    reveal_strlit("app_mention");
    reveal_strlit("message");
    assert("app_mention"@.len() == 11 && "message"@.len() == 7);
}

/// An event's id is `slack:`, its team, its channel and its `ts` with slashes
/// between them. The team is the text under `team`, else under `team_id`, else
/// `unknown`; the channel else `unknown`; the `ts` else `0`.
pub proof fn law_event_id(
    event: JsonView,
    now: Timestamp,
    team: Seq<char>,
    channel: Seq<char>,
    ts: Seq<char>,
)
    requires
        event.text_at("team"@) == Some(team) || (event.text_at("team"@) is None && (event.text_at(
            "team_id"@,
        ) == Some(team) || (event.text_at("team_id"@) is None && team == "unknown"@))),
        event.text_at("channel"@) == Some(channel) || (event.text_at("channel"@) is None && channel
            == "unknown"@),
        event.text_at("ts"@) == Some(ts) || (event.text_at("ts"@) is None && ts == "0"@),
    ensures
        event_id(event) == "slack:"@ + team + "/"@ + channel + "/"@ + ts,
        trigger_event(event, now) matches Some(surfaced) ==> surfaced.id == "slack:"@ + team + "/"@
            + channel + "/"@ + ts,
{
}

/// An event happened when its `ts` says, where it has one that names a point in
/// time, and otherwise now.
pub proof fn law_event_time(event: JsonView, now: Timestamp, ts: Seq<char>)
    requires
        trigger_event(event, now) is Some,
    ensures
        event.text_at("ts"@) is None ==> trigger_event(event, now)->0.occurred_at == now,
        event.text_at("ts"@) == Some(ts) && ts_instant(ts) is None ==> trigger_event(
            event,
            now,
        )->0.occurred_at == now,
        event.text_at("ts"@) == Some(ts) && ts_instant(ts) is Some ==> trigger_event(
            event,
            now,
        )->0.occurred_at == ts_instant(ts)->0,
{
}

/// A `ts` with a dot names the second before its first dot, and the nanoseconds
/// that the nine characters after the dot write, filled up with zeros; both must
/// be numbers and name a point in time.
pub proof fn law_ts_parts(seconds: Seq<char>, fraction: Seq<char>, nine: Seq<char>)
    requires
        !seconds.contains('.'),
        nine.len() == 9,
        forall|i: int| 0 <= i < 9 && i < fraction.len() ==> #[trigger] nine[i] == fraction[i],
        forall|i: int| 0 <= i < 9 && i >= fraction.len() ==> #[trigger] nine[i] == '0',
    ensures
        ts_instant(seconds.push('.') + fraction) matches Some(at) ==> parsed_i64(seconds) == Some(
            at.secs,
        ) && parsed_u32(nine) == Some(at.nanos) && is_instant(at.secs as int, at.nanos as int),
        ts_instant(seconds.push('.') + fraction) is None ==> parsed_i64(seconds) is None
            || parsed_u32(nine) is None || !is_instant(
            parsed_i64(seconds)->0 as int,
            parsed_u32(nine)->0 as int,
        ),
{
    let ts = seconds.push('.') + fraction;
    assert forall|k: int| 0 <= k < seconds.len() implies ts[k] != '.' by {
        assert(ts[k] == seconds[k]);
    }
    lemma_cut_at(ts, '.', seconds.len() as int);
    assert(ts_seconds(ts) =~= seconds);
    assert(ts_fraction(ts) =~= fraction);
    assert(nine_digits(fraction) =~= nine);
}

/// A `ts` without a dot names a whole second.
pub proof fn law_ts_whole(seconds: Seq<char>)
    requires
        !seconds.contains('.'),
    ensures
        ts_instant(seconds) matches Some(at) ==> parsed_i64(seconds) == Some(at.secs) && at.nanos
            == 0 && is_instant(at.secs as int, 0),
        ts_instant(seconds) is None ==> parsed_i64(seconds) is None || !is_instant(
            parsed_i64(seconds)->0 as int,
            0,
        ),
{
    lemma_cut_at(seconds, '.', seconds.len() as int);
    assert(ts_seconds(seconds) =~= seconds);
    reveal_strlit("0");
    let none: Seq<char> = Seq::empty();
    assert(nine_digits("0"@) =~= none + zero_digits(9));
    let zeros = nine_digits("0"@);
    assert forall|i: int| 0 <= i < zeros.len() implies #[trigger] is_digit(zeros[i]) by {
        assert(zeros[i] == '0');
    }
    assert(zeros =~= "0"@ + zero_digits(8));
    lemma_zeros("0"@, 8);
    assert("0"@.drop_last() =~= none);
    assert(digits_value("0"@) == 0) by {
        reveal_with_fuel(digits_value, 2);
    }
    assert(digits_value(zeros) == 0 * pow10(8));
}

/// The trigger event of a kind says the same of a Slack event whatever the kind.
pub proof fn law_kind_makes_no_other_difference(
    kind: Seq<char>,
    other: Seq<char>,
    event: JsonView,
    now: Timestamp,
)
    ensures
        event_of_kind(kind, event, now).kind == kind,
        event_of_kind(kind, event, now).id == event_id(event),
        event_of_kind(kind, event, now).payload == event,
        event_of_kind(kind, event, now).occurred_at == event_of_kind(other, event, now).occurred_at,
        event_of_kind(kind, event, now).subject_id is None,
        event_of_kind(kind, event, now).action_hint == Some("create_task"@),
{
}

/// The view of an event leaves nothing out.
pub proof fn law_event_view(event: TriggerEvent)
    ensures
        event@.id == event.id@,
        event@.occurred_at == event.occurred_at,
        event@.kind == event.kind@,
        event@.payload == event.payload@,
        event@.subject_id == event.subject_id.deep_view(),
        event@.action_hint == event.action_hint.deep_view(),
{
}

} // verus!
