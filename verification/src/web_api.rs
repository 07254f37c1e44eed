//! Slack Web API requests for outbound messaging.
//!
//! [`SlackWebClient`] prepares the three Slack Web API calls that the outbound
//! RPC methods make, and reads their answers:
//!
//! - [`SlackWebClient::chat_post_message`]: `chat.postMessage`
//! - [`SlackWebClient::chat_post_ephemeral`]: `chat.postEphemeral`
//! - [`SlackWebClient::conversations_open_im`]: `conversations.open` for one user
//!
//! [`SlackWebClient::send_dm`] opens a channel with the last and posts in it
//! with the first. A request that is refused is refused here, before anything
//! is sent. Slack's `{ ok: bool, error?: string, ... }` envelope is unwrapped by
//! [`SlackWebClient::read_reply`]; the full successful answer is returned as it
//! came.

use crate::config::{is_set, keep_non_empty, non_empty};
use crate::json::{members_view, no_members, parsed_json, put, Json, JsonView, Member, Parsed};
use crate::protocol::{copy_optional, optional};
use crate::text::{
    decimal, decimal_text, law_without_trailing, trim, trim_end_matches, trimmed, without_trailing,
};
use vstd::prelude::*;
use vstd::string::*;

verus! {

/// Slack Web API failure mode.
#[derive(Debug)]
#[allow(inconsistent_fields)]
pub enum SlackApiError {
    /// Caller passed a malformed parameter (empty channel, etc.).
    InvalidRequest(String),
    /// Bot token absent.
    MissingBotToken,
    /// Slack returned `ok=false` with an `error` code (e.g.
    /// `channel_not_found`, `not_in_channel`, `invalid_auth`).
    Slack {
        /// Slack's `error` string from the response body.
        code: String,
        /// Full response body for diagnostic context.
        body: Json,
    },
    /// Slack returned a non-2xx HTTP status. Body is kept for diagnostics.
    Http {
        /// HTTP status code.
        status: u16,
        /// Response body (or empty string on read failure).
        body: String,
    },
    /// Transport failure (DNS, timeout, TLS, ...).
    Transport(String),
    /// JSON decode failure on the response body.
    Decode(String),
}

/// What a failure says.
#[allow(inconsistent_fields)]
pub enum SlackApiErrorView {
    InvalidRequest(Seq<char>),
    MissingBotToken,
    Slack { code: Seq<char>, body: JsonView },
    Http { status: u16, body: Seq<char> },
    Transport(Seq<char>),
    Decode(Seq<char>),
}

impl View for SlackApiError {
    type V = SlackApiErrorView;

    open spec fn view(&self) -> SlackApiErrorView {
        match self {
            SlackApiError::InvalidRequest(message) => SlackApiErrorView::InvalidRequest(message@),
            SlackApiError::MissingBotToken => SlackApiErrorView::MissingBotToken,
            SlackApiError::Slack { code, body } => SlackApiErrorView::Slack {
                code: code@,
                body: body@,
            },
            SlackApiError::Http { status, body } => SlackApiErrorView::Http {
                status: *status,
                body: body@,
            },
            SlackApiError::Transport(message) => SlackApiErrorView::Transport(message@),
            SlackApiError::Decode(message) => SlackApiErrorView::Decode(message@),
        }
    }
}

impl SlackApiErrorView {
    /// The failure in words.
    pub open spec fn message(self) -> Seq<char> {
        match self {
            SlackApiErrorView::InvalidRequest(message) => "invalid request: "@ + message,
            SlackApiErrorView::MissingBotToken => "SLACK_BOT_TOKEN unset"@,
            SlackApiErrorView::Slack { code, body } => "slack api error: "@ + code,
            SlackApiErrorView::Http { status, body } => "slack http "@ + decimal(status as nat)
                + ": "@ + body,
            SlackApiErrorView::Transport(message) => "slack transport: "@ + message,
            SlackApiErrorView::Decode(message) => "slack decode: "@ + message,
        }
    }
}

impl SlackApiError {
    /// The failure in words.
    pub fn message(&self) -> (r: String)
        ensures
            r@ == self@.message(),
    {
        match self {
            SlackApiError::InvalidRequest(message) => "invalid request: ".to_string().concat(
                message.as_str(),
            ),
            SlackApiError::MissingBotToken => "SLACK_BOT_TOKEN unset".to_string(),
            SlackApiError::Slack { code, body: _ } => "slack api error: ".to_string().concat(
                code.as_str(),
            ),
            SlackApiError::Http { status, body } => {
                let mut text: String = "slack http ".to_string();
                text.append(decimal_text(*status as u64).as_str());
                text.append(": ");
                text.append(body.as_str());
                text
            },
            SlackApiError::Transport(message) => "slack transport: ".to_string().concat(
                message.as_str(),
            ),
            SlackApiError::Decode(message) => "slack decode: ".to_string().concat(message.as_str()),
        }
    }
}

/// Parameters for `slack/chat_post_message`.
#[derive(Debug)]
pub struct ChatPostMessageParams {
    /// Channel id (`Cxxxx`) or user id (`Uxxxx`); Slack also accepts `#name`.
    pub channel: String,
    /// Plain text body. Optional only when `blocks` is set.
    pub text: Option<String>,
    /// Parent message timestamp for thread replies (`"1715701234.000100"`).
    pub thread_ts: Option<String>,
    /// Block Kit JSON, passed through as it is.
    pub blocks: Option<Json>,
}

/// Parameters for `slack/chat_post_ephemeral`.
#[derive(Debug)]
pub struct ChatPostEphemeralParams {
    /// Channel id.
    pub channel: String,
    /// User id that should see the ephemeral message.
    pub user: String,
    /// Plain text body.
    pub text: String,
    /// Optional Block Kit JSON.
    pub blocks: Option<Json>,
}

/// Parameters for `slack/send_dm`.
#[derive(Debug)]
pub struct SendDmParams {
    /// User id (`Uxxxx`). A private IM channel is resolved for them.
    pub user_id: String,
    /// Plain text body. Optional only when `blocks` is set.
    pub text: Option<String>,
    /// Optional Block Kit JSON.
    pub blocks: Option<Json>,
}

/// What the parameters of `slack/chat_post_message` say.
pub struct MessageView {
    pub channel: Seq<char>,
    pub text: Option<Seq<char>>,
    pub thread_ts: Option<Seq<char>>,
    pub blocks: Option<JsonView>,
}

/// What the parameters of `slack/chat_post_ephemeral` say.
pub struct EphemeralView {
    pub channel: Seq<char>,
    pub user: Seq<char>,
    pub text: Seq<char>,
    pub blocks: Option<JsonView>,
}

/// What the parameters of `slack/send_dm` say.
pub struct DmView {
    pub user_id: Seq<char>,
    pub text: Option<Seq<char>>,
    pub blocks: Option<JsonView>,
}

impl View for ChatPostMessageParams {
    type V = MessageView;

    open spec fn view(&self) -> MessageView {
        MessageView {
            channel: self.channel@,
            text: self.text.deep_view(),
            thread_ts: self.thread_ts.deep_view(),
            blocks: optional(self.blocks),
        }
    }
}

impl View for ChatPostEphemeralParams {
    type V = EphemeralView;

    open spec fn view(&self) -> EphemeralView {
        EphemeralView {
            channel: self.channel@,
            user: self.user@,
            text: self.text@,
            blocks: optional(self.blocks),
        }
    }
}

impl View for SendDmParams {
    type V = DmView;

    open spec fn view(&self) -> DmView {
        DmView {
            user_id: self.user_id@,
            text: self.text.deep_view(),
            blocks: optional(self.blocks),
        }
    }
}

impl Clone for ChatPostMessageParams {
    fn clone(&self) -> (r: ChatPostMessageParams)
        ensures
            r@ == self@,
    {
        ChatPostMessageParams {
            channel: self.channel.clone(),
            text: self.text.clone(),
            thread_ts: self.thread_ts.clone(),
            blocks: copy_optional(&self.blocks),
        }
    }
}

impl Clone for ChatPostEphemeralParams {
    fn clone(&self) -> (r: ChatPostEphemeralParams)
        ensures
            r@ == self@,
    {
        ChatPostEphemeralParams {
            channel: self.channel.clone(),
            user: self.user.clone(),
            text: self.text.clone(),
            blocks: copy_optional(&self.blocks),
        }
    }
}

impl Clone for SendDmParams {
    fn clone(&self) -> (r: SendDmParams)
        ensures
            r@ == self@,
    {
        SendDmParams {
            user_id: self.user_id.clone(),
            text: self.text.clone(),
            blocks: copy_optional(&self.blocks),
        }
    }
}

impl Default for ChatPostMessageParams {
    fn default() -> (r: ChatPostMessageParams)
        ensures
            r@ == (MessageView { channel: Seq::empty(), text: None, thread_ts: None,
                blocks: None }),
    {
        ChatPostMessageParams { channel: String::new(), text: None, thread_ts: None, blocks: None }
    }
}

impl Default for ChatPostEphemeralParams {
    fn default() -> (r: ChatPostEphemeralParams)
        ensures
            r@ == (EphemeralView {
                channel: Seq::empty(),
                user: Seq::empty(),
                text: Seq::empty(),
                blocks: None,
            }),
    {
        ChatPostEphemeralParams {
            channel: String::new(),
            user: String::new(),
            text: String::new(),
            blocks: None,
        }
    }
}

impl Default for SendDmParams {
    fn default() -> (r: SendDmParams)
        ensures
            r@ == (DmView { user_id: Seq::empty(), text: None, blocks: None }),
    {
        SendDmParams { user_id: String::new(), text: None, blocks: None }
    }
}

/// A POST request to the Slack Web API.
#[derive(Debug)]
pub struct ApiRequest {
    pub url: String,
    /// The token, sent as a bearer credential.
    pub bearer: String,
    pub content_type: String,
    pub body: Json,
}

/// What a request says.
pub struct ApiRequestView {
    pub url: Seq<char>,
    pub bearer: Seq<char>,
    pub content_type: Seq<char>,
    pub body: JsonView,
}

impl View for ApiRequest {
    type V = ApiRequestView;

    open spec fn view(&self) -> ApiRequestView {
        ApiRequestView {
            url: self.url@,
            bearer: self.bearer@,
            content_type: self.content_type@,
            body: self.body@,
        }
    }
}

/// The content type of a request.
pub const CONTENT_TYPE_JSON: &'static str = "application/json; charset=utf-8";

/// The rest of a direct message, while its channel is being opened.
#[derive(Debug)]
pub struct PendingDm {
    pub text: Option<String>,
    pub blocks: Option<Json>,
}

/// What a direct message says while its channel is being opened.
pub struct PendingDmView {
    pub text: Option<Seq<char>>,
    pub blocks: Option<JsonView>,
}

impl View for PendingDm {
    type V = PendingDmView;

    open spec fn view(&self) -> PendingDmView {
        PendingDmView { text: self.text.deep_view(), blocks: optional(self.blocks) }
    }
}

/// A Slack Web API client: where the API is, and the bot token.
#[derive(Debug)]
pub struct SlackWebClient {
    base_url: String,
    bot_token: Option<String>,
}

/// What a client is made of.
pub struct SlackWebClientView {
    pub base_url: Seq<char>,
    pub bot_token: Option<Seq<char>>,
}

impl View for SlackWebClient {
    type V = SlackWebClientView;

    closed spec fn view(&self) -> SlackWebClientView {
        SlackWebClientView { base_url: self.base_url@, bot_token: self.bot_token.deep_view() }
    }
}

impl Clone for SlackWebClient {
    fn clone(&self) -> (r: SlackWebClient)
        ensures
            r@ == self@,
    {
        SlackWebClient { base_url: self.base_url.clone(), bot_token: self.bot_token.clone() }
    }
}

/// The client for a base URL and a bot token.
pub open spec fn client_of(base_url: Seq<char>,
    bot_token: Option<Seq<char>>) -> SlackWebClientView {
    SlackWebClientView {
        base_url: without_trailing(base_url, '/'),
        bot_token: non_empty(bot_token),
    }
}

/// The view of a prepared request, or of why there is none.
pub open spec fn prepared(r: Result<ApiRequest, SlackApiError>) -> Result<
    ApiRequestView,
    SlackApiErrorView,
> {
    match r {
        Ok(request) => Ok(request@),
        Err(error) => Err(error@),
    }
}

/// The view of a request that opens a channel and of the message for it, or of
/// why there is none.
pub open spec fn opening(r: Result<(ApiRequest, PendingDm), SlackApiError>) -> Result<
    (ApiRequestView, PendingDmView),
    SlackApiErrorView,
> {
    match r {
        Ok((request, pending)) => Ok((request@, pending@)),
        Err(error) => Err(error@),
    }
}

/// The view of an answer, or of the failure it tells of.
pub open spec fn answered(r: Result<Json, SlackApiError>) -> Result<JsonView, SlackApiErrorView> {
    match r {
        Ok(value) => Ok(value@),
        Err(error) => Err(error@),
    }
}

/// Whether `s` is white space at most.
pub open spec fn is_blank(s: Seq<char>) -> bool {
    trimmed(s).len() == 0
}

/// Whether a message has neither text nor blocks.
pub open spec fn is_bare(text: Option<Seq<char>>, blocks: Option<JsonView>) -> bool {
    non_empty(text) is None && blocks is None
}

/// Why a message is refused.
pub open spec fn message_refusal(params: MessageView) -> Option<Seq<char>> {
    if is_blank(params.channel) {
        Some("channel must not be empty"@)
    } else if is_bare(params.text, params.blocks) {
        Some("either text or blocks must be provided"@)
    } else {
        None
    }
}

/// Why an ephemeral message is refused.
pub open spec fn ephemeral_refusal(params: EphemeralView) -> Option<Seq<char>> {
    if is_blank(params.channel) {
        Some("channel must not be empty"@)
    } else if is_blank(params.user) {
        Some("user must not be empty"@)
    } else if is_bare(Some(params.text), params.blocks) {
        Some("either text or blocks must be provided"@)
    } else {
        None
    }
}

/// Why a channel is not opened with a user.
pub open spec fn open_refusal(user_id: Seq<char>) -> Option<Seq<char>> {
    if is_blank(user_id) {
        Some("user_id must not be empty"@)
    } else {
        None
    }
}

/// Why a direct message is refused before its channel is opened.
pub open spec fn dm_refusal(params: DmView) -> Option<Seq<char>> {
    if is_bare(params.text, params.blocks) {
        Some("either text or blocks must be provided"@)
    } else {
        open_refusal(params.user_id)
    }
}

/// `members`, with one more where there is a value for it.
pub open spec fn with_optional(
    members: Map<Seq<char>, JsonView>,
    name: Seq<char>,
    value: Option<JsonView>,
) -> Map<Seq<char>, JsonView> {
    match value {
        Some(json) => members.insert(name, json),
        None => members,
    }
}

/// Text as a JSON value.
pub open spec fn optional_text(text: Option<Seq<char>>) -> Option<JsonView> {
    match text {
        Some(s) => Some(JsonView::Text(s)),
        None => None,
    }
}

/// The body of `chat.postMessage`.
pub open spec fn message_body(params: MessageView) -> JsonView {
    let channel = no_members().insert("channel"@, JsonView::Text(params.channel));
    let text = with_optional(channel, "text"@, optional_text(params.text));
    let thread = with_optional(text, "thread_ts"@, optional_text(params.thread_ts));
    JsonView::Object(with_optional(thread, "blocks"@, params.blocks))
}

/// The body of `chat.postEphemeral`.
pub open spec fn ephemeral_body(params: EphemeralView) -> JsonView {
    let fixed = no_members().insert("channel"@, JsonView::Text(params.channel)).insert(
        "user"@,
        JsonView::Text(params.user),
    ).insert("text"@, JsonView::Text(params.text));
    JsonView::Object(with_optional(fixed, "blocks"@, params.blocks))
}

/// The body of `conversations.open` for one user.
pub open spec fn open_body(user_id: Seq<char>) -> JsonView {
    JsonView::Object(no_members().insert("users"@, JsonView::Text(user_id)))
}

/// The request to an endpoint: refused, or lacking the token, or ready to send.
pub open spec fn request_to(
    client: SlackWebClientView,
    endpoint: Seq<char>,
    refusal: Option<Seq<char>>,
    body: JsonView,
) -> Result<ApiRequestView, SlackApiErrorView> {
    match refusal {
        Some(message) => Err(SlackApiErrorView::InvalidRequest(message)),
        None => match client.bot_token {
            Some(token) => Ok(
                ApiRequestView {
                    url: client.base_url + "/"@ + endpoint,
                    bearer: token,
                    content_type: CONTENT_TYPE_JSON@,
                    body,
                },
            ),
            None => Err(SlackApiErrorView::MissingBotToken),
        },
    }
}

/// The request that posts a message.
pub open spec fn message_request(client: SlackWebClientView, params: MessageView) -> Result<
    ApiRequestView,
    SlackApiErrorView,
> {
    request_to(client, "chat.postMessage"@, message_refusal(params), message_body(params))
}

/// The request that posts an ephemeral message.
pub open spec fn ephemeral_request(client: SlackWebClientView, params: EphemeralView) -> Result<
    ApiRequestView,
    SlackApiErrorView,
> {
    request_to(client, "chat.postEphemeral"@, ephemeral_refusal(params), ephemeral_body(params))
}

/// The request that opens a channel with a user.
pub open spec fn open_request(client: SlackWebClientView, user_id: Seq<char>) -> Result<
    ApiRequestView,
    SlackApiErrorView,
> {
    request_to(client, "conversations.open"@, open_refusal(user_id), open_body(user_id))
}

/// The request that opens the channel of a direct message.
pub open spec fn dm_request(client: SlackWebClientView, params: DmView) -> Result<
    ApiRequestView,
    SlackApiErrorView,
> {
    request_to(client, "conversations.open"@, dm_refusal(params), open_body(params.user_id))
}

/// The message that is kept while the channel of a direct message is opened.
pub open spec fn pending_dm(params: DmView) -> PendingDmView {
    PendingDmView { text: non_empty(params.text), blocks: params.blocks }
}

/// The request that opens the channel of a direct message, and the message that
/// is kept for it.
pub open spec fn dm_opening(client: SlackWebClientView, params: DmView) -> Result<
    (ApiRequestView, PendingDmView),
    SlackApiErrorView,
> {
    match dm_request(client, params) {
        Ok(request) => Ok((request, pending_dm(params))),
        Err(error) => Err(error),
    }
}

/// The channel that `conversations.open` opened.
pub open spec fn opened_channel(opened: JsonView) -> Option<Seq<char>> {
    match opened.get("channel"@) {
        Some(channel) => channel.text_at("id"@),
        None => None,
    }
}

/// The request that posts a direct message in the channel that was opened.
pub open spec fn dm_message_request(
    client: SlackWebClientView,
    opened: JsonView,
    pending: PendingDmView,
) -> Result<ApiRequestView, SlackApiErrorView> {
    match opened_channel(opened) {
        Some(channel) => message_request(
            client,
            MessageView { channel, text: pending.text, thread_ts: None, blocks: pending.blocks },
        ),
        None => Err(SlackApiErrorView::Decode("conversations.open response missing channel.id"@)),
    }
}

/// What Slack's answer says, once it is read as JSON.
pub open spec fn judged(answer: JsonView) -> Result<JsonView, SlackApiErrorView> {
    if answer.bool_at("ok"@) == Some(true) {
        Ok(answer)
    } else {
        Err(
            SlackApiErrorView::Slack {
                code: match answer.text_at("error"@) {
                    Some(code) => code,
                    None => "unknown"@,
                },
                body: answer,
            },
        )
    }
}

/// Whether an HTTP status tells of success.
pub open spec fn is_success(status: u16) -> bool {
    200 <= status < 300
}

/// What an answer says: its status, its text, and what the text reads as.
pub open spec fn reply_of(status: u16, text: Seq<char>, parsed: Parsed) -> Result<
    JsonView,
    SlackApiErrorView,
> {
    if !is_success(status) {
        Err(SlackApiErrorView::Http { status, body: text })
    } else {
        match parsed {
            Parsed::Value(answer) => judged(answer),
            Parsed::Malformed(message) => Err(
                SlackApiErrorView::Decode(message + ": "@ + text),
            ),
        }
    }
}

/// What an answer says whose body could not be read, for this reason.
pub open spec fn unread_of(status: u16, reason: Seq<char>) -> SlackApiErrorView {
    if is_success(status) {
        SlackApiErrorView::Transport(reason)
    } else {
        SlackApiErrorView::Http { status, body: Seq::empty() }
    }
}

fn invalid(message: &str) -> (r: SlackApiError)
    ensures
        r@ == SlackApiErrorView::InvalidRequest(message@),
{
    SlackApiError::InvalidRequest(message.to_string())
}

fn put_optional(members: &mut Vec<Member>, name: &str, value: Option<Json>)
    ensures
        members_view(final(members)@) == with_optional(
            members_view(old(members)@),
            name@,
            optional(value),
        ),
{
    if let Some(json) = value {
        put(members, name, json);
    }
}

fn text_value(text: Option<String>) -> (r: Option<Json>)
    ensures
        optional(r) == optional_text(text.deep_view()),
{
    match text {
        Some(s) => Some(Json::Text(s)),
        None => None,
    }
}

impl SlackWebClient {
    /// Build a client with the given Web API base URL and bot token.
    ///
    /// Without a token, authentication failures are deferred to call time,
    /// which keeps `--manifest` and `health/check` credential-free.
    pub fn new(base_url: &str, bot_token: Option<String>) -> (r: SlackWebClient)
        ensures
            r@ == client_of(base_url@, bot_token.deep_view()),
    {
        SlackWebClient {
            base_url: trim_end_matches(base_url, '/').to_string(),
            bot_token: keep_non_empty(bot_token),
        }
    }

    /// `chat.postMessage`: post a message to a channel (or thread).
    pub fn chat_post_message(&self, params: ChatPostMessageParams) -> (r: Result<
        ApiRequest,
        SlackApiError,
    >)
        ensures
            prepared(r) == message_request(self@, params@),
            r matches Ok(request) ==> {
                &&& request.url@ == self@.base_url + "/"@ + "chat.postMessage"@
                &&& request.body@.get("channel"@) == Some(JsonView::Text(params.channel@))
                &&& params.text is None ==> request.body@.get("text"@) is None
                &&& params.text matches Some(text) ==> request.body@.get("text"@) == Some(
                    JsonView::Text(text@),
                )
                &&& params.thread_ts is None ==> request.body@.get("thread_ts"@) is None
                &&& params.thread_ts matches Some(ts) ==> request.body@.get("thread_ts"@) == Some(
                    JsonView::Text(ts@),
                )
                &&& params.blocks is None ==> request.body@.get("blocks"@) is None
                &&& params.blocks matches Some(blocks) ==> request.body@.get("blocks"@) == Some(
                    blocks@,
                )
            },
    {
        proof {
            law_message_body(params@);
        }
        if trim(params.channel.as_str()).is_empty() {
            return Err(invalid("channel must not be empty"));
        }
        if !is_set(&params.text) && params.blocks.is_none() {
            return Err(invalid("either text or blocks must be provided"));
        }
        let mut body: Vec<Member> = Vec::new();
        put(&mut body, "channel", Json::Text(params.channel));
        put_optional(&mut body, "text", text_value(params.text));
        put_optional(&mut body, "thread_ts", text_value(params.thread_ts));
        put_optional(&mut body, "blocks", params.blocks);
        self.post_json("chat.postMessage", Json::Object(body))
    }

    /// `chat.postEphemeral`: post a message visible only to one user.
    pub fn chat_post_ephemeral(&self, params: ChatPostEphemeralParams) -> (r: Result<
        ApiRequest,
        SlackApiError,
    >)
        ensures
            prepared(r) == ephemeral_request(self@, params@),
            r matches Ok(request) ==> {
                &&& request.url@ == self@.base_url + "/"@ + "chat.postEphemeral"@
                &&& request.body@.get("channel"@) == Some(JsonView::Text(params.channel@))
                &&& request.body@.get("user"@) == Some(JsonView::Text(params.user@))
                &&& request.body@.get("text"@) == Some(JsonView::Text(params.text@))
                &&& params.blocks is None ==> request.body@.get("blocks"@) is None
                &&& params.blocks matches Some(blocks) ==> request.body@.get("blocks"@) == Some(
                    blocks@,
                )
            },
    {
        proof {
            law_ephemeral_body(params@);
        }
        if trim(params.channel.as_str()).is_empty() {
            return Err(invalid("channel must not be empty"));
        }
        if trim(params.user.as_str()).is_empty() {
            return Err(invalid("user must not be empty"));
        }
        if params.text.as_str().is_empty() && params.blocks.is_none() {
            return Err(invalid("either text or blocks must be provided"));
        }
        let mut body: Vec<Member> = Vec::new();
        put(&mut body, "channel", Json::Text(params.channel));
        put(&mut body, "user", Json::Text(params.user));
        put(&mut body, "text", Json::Text(params.text));
        put_optional(&mut body, "blocks", params.blocks);
        self.post_json("chat.postEphemeral", Json::Object(body))
    }

    /// `conversations.open` for a single user.
    pub fn conversations_open_im(&self, user_id: &str) -> (r: Result<ApiRequest, SlackApiError>)
        ensures
            prepared(r) == open_request(self@, user_id@),
            r matches Ok(request) ==> {
                &&& request.url@ == self@.base_url + "/"@ + "conversations.open"@
                &&& request.body@.get("users"@) == Some(JsonView::Text(user_id@))
            },
    {
        if trim(user_id).is_empty() {
            return Err(invalid("user_id must not be empty"));
        }
        let mut body: Vec<Member> = Vec::new();
        put(&mut body, "users", Json::from_text(user_id));
        self.post_json("conversations.open", Json::Object(body))
    }

    /// `slack/send_dm`: the request that opens an IM channel with the user,
    /// and the message to post there with [`SlackWebClient::finish_dm`].
    pub fn send_dm(&self, params: SendDmParams) -> (r: Result<
        (ApiRequest, PendingDm),
        SlackApiError,
    >)
        ensures
            opening(r) == dm_opening(self@, params@),
            r matches Ok((request, pending)) ==> {
                &&& request.url@ == self@.base_url + "/"@ + "conversations.open"@
                &&& request.body@.get("users"@) == Some(JsonView::Text(params.user_id@))
                &&& params.text matches Some(text) ==> (text@.len() > 0 ==> pending.text is Some
                    && pending.text->0@ == text@)
                &&& params.blocks matches Some(blocks) ==> pending.blocks is Some
                    && pending.blocks->0@ == blocks@
            },
    {
        let text: Option<String> = keep_non_empty(params.text);
        if text.is_none() && params.blocks.is_none() {
            return Err(invalid("either text or blocks must be provided"));
        }
        match self.conversations_open_im(params.user_id.as_str()) {
            Ok(request) => Ok((request, PendingDm { text, blocks: params.blocks })),
            Err(error) => Err(error),
        }
    }

    /// The request that posts a direct message in the channel that
    /// `conversations.open` answered with.
    pub fn finish_dm(&self, pending: PendingDm, opened: &Json) -> (r: Result<
        ApiRequest,
        SlackApiError,
    >)
        ensures
            prepared(r) == dm_message_request(self@, opened@, pending@),
    {
        let id: Option<&str> = match opened.get("channel") {
            Some(channel) => channel.text_at("id"),
            None => None,
        };
        match id {
            Some(id) => self.chat_post_message(
                ChatPostMessageParams {
                    channel: id.to_string(),
                    text: pending.text,
                    thread_ts: None,
                    blocks: pending.blocks,
                },
            ),
            None => Err(
                SlackApiError::Decode("conversations.open response missing channel.id".to_string()),
            ),
        }
    }

    /// The POST request to an endpoint, where there is a bot token.
    pub fn post_json(&self, endpoint: &str, body: Json) -> (r: Result<ApiRequest, SlackApiError>)
        ensures
            prepared(r) == request_to(self@, endpoint@, None, body@),
            self@.bot_token is None ==> (r matches Err(error) && error is MissingBotToken),
            self@.bot_token matches Some(token) ==> (r matches Ok(request) && request.url@
                == self@.base_url + "/"@ + endpoint@ && request.bearer@ == token && request.body@
                == body@ && request.content_type@ == "application/json; charset=utf-8"@),
    {
        match &self.bot_token {
            Some(token) => {
                let mut url: String = self.base_url.clone();
                url.append("/");
                url.append(endpoint);
                Ok(
                    ApiRequest {
                        url,
                        bearer: token.clone(),
                        content_type: CONTENT_TYPE_JSON.to_string(),
                        body,
                    },
                )
            },
            None => Err(SlackApiError::MissingBotToken),
        }
    }

    /// Reads Slack's answer to a request: the JSON value on `ok=true`, and
    /// otherwise the failure.
    pub fn read_reply(status: u16, text: &str) -> (r: Result<Json, SlackApiError>)
        ensures
            answered(r) == reply_of(status, text@, parsed_json(text@)),
            200 <= status < 300 ==> (parsed_json(text@) matches Parsed::Value(answer) ==> (
            answer.bool_at("ok"@) == Some(true) ==> (r matches Ok(given) && given@ == answer))),
            r matches Ok(given) ==> 200 <= status < 300 && parsed_json(text@)
                == Parsed::Value(given@)
                && given@.bool_at("ok"@) == Some(true),
    {
        if status < 200 || 300 <= status {
            return Err(SlackApiError::Http { status, body: text.to_string() });
        }
        match Json::parse(text) {
            Ok(answer) => judge(answer),
            Err(message) => Err(SlackApiError::Decode(message.concat(": ").concat(text))),
        }
    }
}

/// The failure that an answer tells of whose body could not be read, for this
/// reason: a non-2xx status is an HTTP failure with an empty body all the same.
pub fn unread_reply(status: u16, reason: String) -> (r: SlackApiError)
    ensures
        r@ == unread_of(status, reason@),
{
    if status < 200 || 300 <= status {
        SlackApiError::Http { status, body: String::new() }
    } else {
        SlackApiError::Transport(reason)
    }
}

/// What Slack's answer says: the answer itself on `ok=true`, and otherwise its
/// error code.
pub fn judge(answer: Json) -> (r: Result<Json, SlackApiError>)
    ensures
        answered(r) == judged(answer@),
        answer@.bool_at("ok"@) == Some(true) ==> r == Ok::<Json, SlackApiError>(answer),
        answer@.bool_at("ok"@) != Some(true) ==> (r matches Err(SlackApiError::Slack { code, body })
            && body == answer),
{
    let ok: bool = match answer.bool_at("ok") {
        Some(ok) => ok,
        None => false,
    };
    if ok {
        return Ok(answer);
    }
    let code: String = match answer.text_at("error") {
        Some(code) => code.to_string(),
        None => "unknown".to_string(),
    };
    Err(SlackApiError::Slack { code, body: answer })
}

/// A request that is refused is refused before the token is looked at, and so
/// whatever the client is: it never reaches Slack.
pub proof fn law_refused_before_sent(
    client: SlackWebClientView,
    message: MessageView,
    ephemeral: EphemeralView,
    dm: DmView,
)
    ensures
        message_refusal(message) is Some <==> (message_request(client, message) matches Err(error)
            && error is InvalidRequest),
        ephemeral_refusal(ephemeral) is Some <==> (ephemeral_request(client, ephemeral) matches Err(
            error,
        ) && error is InvalidRequest),
        dm_refusal(dm) is Some <==> (dm_request(client, dm) matches Err(error)
            && error is InvalidRequest),
{
}

/// Without a bot token nothing is sent, and with one an accepted request is
/// sent with it.
pub proof fn law_token(
    client: SlackWebClientView,
    endpoint: Seq<char>,
    refusal: Option<Seq<char>>,
    body: JsonView,
)
    ensures
        request_to(client, endpoint, refusal, body) matches Ok(request) ==> client.bot_token
            == Some(
            request.bearer,
        ),
        refusal is None ==> (request_to(client, endpoint, refusal, body) is Ok
            <==> client.bot_token is Some),
        refusal is None && client.bot_token is None ==> request_to(client, endpoint, refusal, body)
            == Err::<ApiRequestView, SlackApiErrorView>(SlackApiErrorView::MissingBotToken),
{
}

/// A message is sent with the channel, text, thread and blocks that were given,
/// and nothing more.
pub proof fn law_message_body(params: MessageView)
    ensures
        message_body(params).get("channel"@) == Some(JsonView::Text(params.channel)),
        message_body(params).get("text"@) == optional_text(params.text),
        message_body(params).get("thread_ts"@) == optional_text(params.thread_ts),
        message_body(params).get("blocks"@) == params.blocks,
        forall|name: Seq<char>| #[trigger]
            message_body(params).get(name) is Some ==> name == "channel"@ || name == "text"@ || name
                == "thread_ts"@ || name == "blocks"@,
{
    reveal_strlit("channel");
    reveal_strlit("text");
    reveal_strlit("thread_ts");
    reveal_strlit("blocks");
    assert("channel"@.len() == 7 && "text"@.len() == 4 && "thread_ts"@.len() == 9 && "blocks"@.len()
        == 6);
}

/// An ephemeral message is sent with the channel, user, text and blocks that
/// were given, and nothing more.
pub proof fn law_ephemeral_body(params: EphemeralView)
    ensures
        ephemeral_body(params).get("channel"@) == Some(JsonView::Text(params.channel)),
        ephemeral_body(params).get("user"@) == Some(JsonView::Text(params.user)),
        ephemeral_body(params).get("text"@) == Some(JsonView::Text(params.text)),
        ephemeral_body(params).get("blocks"@) == params.blocks,
        forall|name: Seq<char>| #[trigger]
            ephemeral_body(params).get(name) is Some ==> name == "channel"@ || name
                == "user"@ || name
                == "text"@ || name == "blocks"@,
{
    reveal_strlit("channel");
    reveal_strlit("user");
    reveal_strlit("text");
    reveal_strlit("blocks");
    assert("channel"@.len() == 7 && "user"@.len() == 4 && "text"@.len() == 4 && "blocks"@.len()
        == 6);
    assert("user"@[0] != "text"@[0]);
}

/// A direct message whose channel was asked for is posted once the channel is
/// known, with the text and blocks that were given: nothing but a blank channel
/// can refuse it then.
pub proof fn law_dm(client: SlackWebClientView, params: DmView, opened: JsonView)
    requires
        dm_request(client, params) is Ok,
        opened_channel(opened) is Some,
        !is_blank(opened_channel(opened)->0),
    ensures
        dm_message_request(client, opened, pending_dm(params)) matches Ok(request)
            && request.body.text_at("channel"@) == opened_channel(opened) && request.body.text_at(
            "text"@,
        ) == non_empty(params.text) && request.body.get("blocks"@) == params.blocks,
{
    law_message_body(
        MessageView {
            channel: opened_channel(opened)->0,
            text: non_empty(params.text),
            thread_ts: None,
            blocks: params.blocks,
        },
    );
}

/// What is handed on as success is a whole answer that came with a 2xx status
/// and said `ok`.
pub proof fn law_success(status: u16, text: Seq<char>, parsed: Parsed)
    ensures
        reply_of(status, text, parsed) matches Ok(answer) ==> is_success(status) && parsed
            == Parsed::Value(answer) && answer.bool_at("ok"@) == Some(true),
{
}

/// The request of a new client to an endpoint. Without a token, or with an empty
/// one, there is none; otherwise it goes to the endpoint under the base URL with
/// the token and the body that were given.
pub proof fn law_client_request(
    base_url: Seq<char>,
    bot_token: Option<Seq<char>>,
    endpoint: Seq<char>,
    body: JsonView,
)
    ensures
        request_to(client_of(base_url, bot_token), endpoint, None, body) == (match non_empty(
            bot_token,
        ) {
            Some(token) => Ok::<ApiRequestView, SlackApiErrorView>(
                ApiRequestView {
                    url: without_trailing(base_url, '/') + "/"@ + endpoint,
                    bearer: token,
                    content_type: CONTENT_TYPE_JSON@,
                    body,
                },
            ),
            None => Err::<ApiRequestView, SlackApiErrorView>(SlackApiErrorView::MissingBotToken),
        }),
{
}

/// A base URL with slashes at its end, however many, and without them gives the
/// same client and so the same requests.
pub proof fn law_base_url(
    base_url: Seq<char>,
    slashes: nat,
    bot_token: Option<Seq<char>>,
    endpoint: Seq<char>,
    refusal: Option<Seq<char>>,
    body: JsonView,
)
    ensures
        without_trailing(base_url.push('/'), '/') == without_trailing(base_url, '/'),
        client_of(base_url.push('/'), bot_token) == client_of(base_url, bot_token),
        client_of(base_url + Seq::new(slashes, |i: int| '/'), bot_token) == client_of(
            base_url,
            bot_token,
        ),
        request_to(
            client_of(base_url + Seq::new(slashes, |i: int| '/'), bot_token),
            endpoint,
            refusal,
            body,
        ) == request_to(client_of(base_url, bot_token), endpoint, refusal, body),
    decreases slashes,
{
    assert(base_url.push('/').drop_last() =~= base_url);
    let longer = base_url + Seq::new(slashes, |i: int| '/');
    if slashes == 0 {
        assert(longer =~= base_url);
    } else {
        let fewer = (slashes - 1) as nat;
        law_base_url(base_url, fewer, bot_token, endpoint, refusal, body);
        assert(longer.drop_last() =~= base_url + Seq::new(fewer, |i: int| '/'));
    }
}

/// An endpoint's address has one slash between it and the base URL of a client.
pub proof fn law_url(base_url: Seq<char>, endpoint: Seq<char>)
    ensures
        ({
            let base = without_trailing(base_url, '/');
            let url = base + "/"@ + endpoint;
            &&& url[base.len() as int] == '/'
            &&& base.len() > 0 ==> url[base.len() - 1] != '/'
            &&& url.skip(base.len() as int + 1) == endpoint
        }),
{
    law_without_trailing(base_url, '/');
    reveal_strlit("/");
    let base = without_trailing(base_url, '/');
    assert((base + "/"@ + endpoint).skip(base.len() as int + 1) =~= endpoint);
}

/// The request that posts a message goes to `chat.postMessage` with the client's
/// token, and its body holds the channel, text, thread and blocks exactly as they
/// were given, each absent where it was, in a thread or not.
pub proof fn law_message_sent(client: SlackWebClientView, params: MessageView)
    ensures
        message_request(client, params) matches Ok(request) ==> {
                &&& request.url == client.base_url + "/"@ + "chat.postMessage"@
                &&& client.bot_token == Some(request.bearer)
                &&& request.content_type == "application/json; charset=utf-8"@
                &&& request.body is Object
                &&& request.body.get("channel"@) == Some(JsonView::Text(params.channel))
                &&& params.text is None ==> request.body.get("text"@) is None
                &&& params.text matches Some(text) ==> request.body.get("text"@) == Some(
                    JsonView::Text(text),
                )
                &&& params.thread_ts is None ==> request.body.get("thread_ts"@) is None
                &&& params.thread_ts matches Some(ts) ==> request.body.get("thread_ts"@) == Some(
                    JsonView::Text(ts),
                )
                &&& params.blocks is None ==> request.body.get("blocks"@) is None
                &&& params.blocks matches Some(blocks) ==> request.body.get("blocks"@)
                    == Some(blocks)
                &&& forall|name: Seq<char>| #[trigger]
                    request.body.get(name) is Some ==> name == "channel"@ || name == "text"@ || name
                        == "thread_ts"@ || name == "blocks"@
        },
{
    law_message_body(params);
}

/// A message is refused where its channel is blank, and where it has neither
/// text nor blocks; every other is sent where there is a token.
pub proof fn law_message_accepted(client: SlackWebClientView, params: MessageView)
    ensures
        ({
            let blank = trimmed(params.channel).len() == 0;
            let bare = params.blocks is None && (params.text is None || params.text->0.len() == 0);
            let r = message_request(client, params);
            &&& blank ==> r == Err::<ApiRequestView, SlackApiErrorView>(
                SlackApiErrorView::InvalidRequest("channel must not be empty"@),
            )
            &&& !blank && bare ==> r == Err::<ApiRequestView, SlackApiErrorView>(
                SlackApiErrorView::InvalidRequest("either text or blocks must be provided"@),
            )
            &&& !blank && !bare && client.bot_token is None ==> r == Err::<
                ApiRequestView,
                SlackApiErrorView,
            >(SlackApiErrorView::MissingBotToken)
            &&& !blank && !bare && client.bot_token is Some ==> r is Ok
        }),
{
}

/// The request that posts an ephemeral message goes to `chat.postEphemeral` with
/// the client's token, and its body holds the channel, user, text and blocks
/// exactly as they were given.
pub proof fn law_ephemeral_sent(client: SlackWebClientView, params: EphemeralView)
    ensures
        ephemeral_request(client, params) matches Ok(request) ==> {
            &&& request.url == client.base_url + "/"@ + "chat.postEphemeral"@
            &&& client.bot_token == Some(request.bearer)
            &&& request.content_type == "application/json; charset=utf-8"@
            &&& request.body is Object
            &&& request.body.get("channel"@) == Some(JsonView::Text(params.channel))
            &&& request.body.get("user"@) == Some(JsonView::Text(params.user))
            &&& request.body.get("text"@) == Some(JsonView::Text(params.text))
            &&& params.blocks is None ==> request.body.get("blocks"@) is None
            &&& params.blocks matches Some(blocks) ==> request.body.get("blocks"@) == Some(blocks)
            &&& forall|name: Seq<char>| #[trigger]
                request.body.get(name) is Some ==> name == "channel"@ || name == "user"@ || name
                    == "text"@ || name == "blocks"@
        },
{
    law_ephemeral_body(params);
}

/// An ephemeral message is refused where its channel or user is blank, and where
/// it has neither text nor blocks; every other is sent where there is a token.
pub proof fn law_ephemeral_accepted(client: SlackWebClientView, params: EphemeralView)
    ensures
        ({
            let nowhere = trimmed(params.channel).len() == 0;
            let nobody = trimmed(params.user).len() == 0;
            let bare = params.blocks is None && params.text.len() == 0;
            let r = ephemeral_request(client, params);
            &&& nowhere ==> r == Err::<ApiRequestView, SlackApiErrorView>(
                SlackApiErrorView::InvalidRequest("channel must not be empty"@),
            )
            &&& !nowhere && nobody ==> r == Err::<ApiRequestView, SlackApiErrorView>(
                SlackApiErrorView::InvalidRequest("user must not be empty"@),
            )
            &&& !nowhere && !nobody && bare ==> r == Err::<ApiRequestView, SlackApiErrorView>(
                SlackApiErrorView::InvalidRequest("either text or blocks must be provided"@),
            )
            &&& !nowhere && !nobody && !bare && client.bot_token is None ==> r == Err::<
                ApiRequestView,
                SlackApiErrorView,
            >(SlackApiErrorView::MissingBotToken)
            &&& !nowhere && !nobody && !bare && client.bot_token is Some ==> r is Ok
        }),
{
}

/// The request that opens a channel goes to `conversations.open` with the
/// client's token and names the user as given, and nothing more; one for a blank
/// user is refused.
pub proof fn law_open_sent(client: SlackWebClientView, user_id: Seq<char>)
    ensures
        open_request(client, user_id) matches Ok(request) ==> {
            &&& request.url == client.base_url + "/"@ + "conversations.open"@
            &&& client.bot_token == Some(request.bearer)
            &&& request.content_type == "application/json; charset=utf-8"@
            &&& request.body is Object
            &&& request.body.get("users"@) == Some(JsonView::Text(user_id))
            &&& forall|name: Seq<char>| #[trigger]
                request.body.get(name) is Some ==> name == "users"@
        },
        trimmed(user_id).len() == 0 ==> open_request(client, user_id) == Err::<
            ApiRequestView,
            SlackApiErrorView,
        >(SlackApiErrorView::InvalidRequest("user_id must not be empty"@)),
        trimmed(user_id).len() > 0 && client.bot_token is None ==> open_request(client, user_id)
            == Err::<ApiRequestView, SlackApiErrorView>(SlackApiErrorView::MissingBotToken),
        trimmed(user_id).len() > 0 && client.bot_token is Some
            ==> open_request(client, user_id) is Ok,
{
}

/// A direct message with text or blocks asks for its user's channel, and the
/// text, where it is not empty, and the blocks are kept for it as given; one
/// with neither is refused.
pub proof fn law_dm_opens(client: SlackWebClientView, params: DmView)
    ensures
        ({
            let bare = params.blocks is None && (params.text is None || params.text->0.len() == 0);
            let r = dm_opening(client, params);
            &&& bare ==> r == Err::<(ApiRequestView, PendingDmView), SlackApiErrorView>(
                SlackApiErrorView::InvalidRequest("either text or blocks must be provided"@),
            )
            &&& !bare ==> (r is Ok <==> open_request(client, params.user_id) is Ok)
            &&& !bare ==> (open_request(client, params.user_id) matches Err(error) ==> r == Err::<
                (ApiRequestView, PendingDmView),
                SlackApiErrorView,
            >(error))
            &&& r matches Ok((request, pending)) ==> {
                &&& open_request(client, params.user_id) == Ok::<ApiRequestView, SlackApiErrorView>(
                    request,
                )
                &&& pending.blocks == params.blocks
                &&& params.text is None ==> pending.text is None
                &&& params.text matches Some(text) ==> (text.len() == 0 ==> pending.text is None)
                    && (text.len() > 0 ==> pending.text == Some(text))
            }
            &&& dm_request(client, params) is Ok <==> r is Ok
            &&& dm_request(client, params) matches Ok(request) ==> (r matches Ok((asked, _))
                && asked
                == request)
            &&& dm_request(client, params) matches Err(error) ==> (r matches Err(given) && given
                == error)
        }),
{
}

/// Once the channel of a direct message is known, its text and blocks are posted
/// there as a message outside any thread; an answer that names no channel is a
/// decode failure.
pub proof fn law_dm_posts(
    client: SlackWebClientView,
    opened: JsonView,
    channel: JsonView,
    id: Seq<char>,
    pending: PendingDmView,
)
    ensures
        opened.get("channel"@) == Some(channel) && channel.text_at("id"@) == Some(id)
            ==> dm_message_request(client, opened, pending) == message_request(
            client,
            MessageView {
                channel: id,
                text: pending.text,
                thread_ts: None,
                blocks: pending.blocks,
            },
        ),
        opened.get("channel"@) is None || (opened.get("channel"@) == Some(channel)
            && channel.text_at("id"@) is None) ==> dm_message_request(client, opened, pending)
            == Err::<ApiRequestView, SlackApiErrorView>(
            SlackApiErrorView::Decode("conversations.open response missing channel.id"@),
        ),
{
}

/// An answer with a 2xx status that reads as JSON whose `ok` is true is handed on
/// whole, whatever else it holds.
pub proof fn law_answer_is_handed_on(status: u16, text: Seq<char>, answer: JsonView)
    requires
        200 <= status < 300,
        answer.bool_at("ok"@) == Some(true),
    ensures
        reply_of(status, text, Parsed::Value(answer)) == Ok::<JsonView, SlackApiErrorView>(answer),
        judged(answer) == Ok::<JsonView, SlackApiErrorView>(answer),
{
}

/// Every other answer is a failure that keeps what came: the status and the text
/// where the status is not 2xx; the reader's message and the text where the text
/// is not JSON; Slack's code, or `unknown`, and the whole answer where `ok` is
/// not true.
pub proof fn law_answer_is_a_failure(
    status: u16,
    text: Seq<char>,
    parsed: Parsed,
    answer: JsonView,
    code: Seq<char>,
    reason: Seq<char>,
)
    ensures
        status < 200 || status >= 300 ==> reply_of(status, text, parsed) == Err::<
            JsonView,
            SlackApiErrorView,
        >(SlackApiErrorView::Http { status, body: text }),
        200 <= status < 300 ==> reply_of(status, text, Parsed::Malformed(reason)) == Err::<
            JsonView,
            SlackApiErrorView,
        >(SlackApiErrorView::Decode(reason + ": "@ + text)),
        200 <= status < 300 && answer.bool_at("ok"@) != Some(true) && (answer.text_at("error"@)
            == Some(code) || (answer.text_at("error"@) is None && code == "unknown"@)) ==> reply_of(
            status,
            text,
            Parsed::Value(answer),
        ) == Err::<JsonView, SlackApiErrorView>(SlackApiErrorView::Slack { code, body: answer })
            && judged(answer) == Err::<JsonView, SlackApiErrorView>(
            SlackApiErrorView::Slack { code, body: answer },
        ),
        status < 200 || status >= 300 ==> unread_of(status, reason) == (SlackApiErrorView::Http {
            status,
            body: Seq::empty(),
        }),
        200 <= status < 300 ==> unread_of(status, reason) == SlackApiErrorView::Transport(reason),
        is_success(status) <==> 200 <= status < 300,
{
}

/// The words for each failure.
pub proof fn law_failure_words(status: u16, text: Seq<char>, body: JsonView)
    ensures
        SlackApiErrorView::InvalidRequest(text).message() == "invalid request: "@ + text,
        SlackApiErrorView::MissingBotToken.message() == "SLACK_BOT_TOKEN unset"@,
        (SlackApiErrorView::Slack { code: text, body }).message() == "slack api error: "@ + text,
        (SlackApiErrorView::Http { status, body: text }).message() == "slack http "@ + decimal(
            status as nat,
        ) + ": "@ + text,
        SlackApiErrorView::Transport(text).message() == "slack transport: "@ + text,
        SlackApiErrorView::Decode(text).message() == "slack decode: "@ + text,
{
}

/// A client has its base URL without slashes at the end, and its token as given
/// where it is not empty.
pub proof fn law_client(base_url: Seq<char>, bot_token: Option<Seq<char>>)
    ensures
        client_of(base_url, bot_token).base_url == without_trailing(base_url, '/'),
        bot_token is None ==> client_of(base_url, bot_token).bot_token is None,
        bot_token matches Some(token) ==> (token.len() == 0 ==> client_of(
            base_url,
            bot_token,
        ).bot_token is None) && (token.len() > 0 ==> client_of(base_url, bot_token).bot_token
            == Some(token)),
{
}

/// The views of parameters, requests and failures leave nothing out.
pub proof fn law_request_views(
    message: ChatPostMessageParams,
    ephemeral: ChatPostEphemeralParams,
    dm: SendDmParams,
    pending: PendingDm,
    request: ApiRequest,
)
    ensures
        message@.channel == message.channel@,
        message@.text == message.text.deep_view(),
        message@.thread_ts == message.thread_ts.deep_view(),
        message@.blocks == optional(message.blocks),
        ephemeral@.channel == ephemeral.channel@,
        ephemeral@.user == ephemeral.user@,
        ephemeral@.text == ephemeral.text@,
        ephemeral@.blocks == optional(ephemeral.blocks),
        dm@.user_id == dm.user_id@,
        dm@.text == dm.text.deep_view(),
        dm@.blocks == optional(dm.blocks),
        pending@.text == pending.text.deep_view(),
        pending@.blocks == optional(pending.blocks),
        request@.url == request.url@,
        request@.bearer == request.bearer@,
        request@.content_type == request.content_type@,
        request@.body == request.body@,
        prepared(Ok(request)) == Ok::<ApiRequestView, SlackApiErrorView>(request@),
        opening(Ok((request, pending))) == Ok::<(ApiRequestView, PendingDmView), SlackApiErrorView>(
            (request@, pending@),
        ),
{
}

/// The view of a failure leaves nothing out, and neither does that of a result.
pub proof fn law_failure_views(error: SlackApiError, answer: Json)
    ensures
        match error {
            SlackApiError::InvalidRequest(message) => error@ == SlackApiErrorView::InvalidRequest(
                message@,
            ),
            SlackApiError::MissingBotToken => error@ == SlackApiErrorView::MissingBotToken,
            SlackApiError::Slack { code, body } => error@ == (SlackApiErrorView::Slack {
                code: code@,
                body: body@,
            }),
            SlackApiError::Http { status, body } => error@ == (SlackApiErrorView::Http {
                status,
                body: body@,
            }),
            SlackApiError::Transport(message) => error@ == SlackApiErrorView::Transport(message@),
            SlackApiError::Decode(message) => error@ == SlackApiErrorView::Decode(message@),
        },
        prepared(Err(error)) == Err::<ApiRequestView, SlackApiErrorView>(error@),
        opening(Err(error)) == Err::<(ApiRequestView, PendingDmView), SlackApiErrorView>(error@),
        answered(Ok(answer)) == Ok::<JsonView, SlackApiErrorView>(answer@),
        answered(Err(error)) == Err::<JsonView, SlackApiErrorView>(error@),
{
}

} // verus!
