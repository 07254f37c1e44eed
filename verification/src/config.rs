//! Configuration for the Slack trigger backend.
//!
//! Loading is lenient: both tokens are optional at load time, so that
//! credential-free lifecycle calls (`--manifest`, `health/check`) succeed
//! without secrets. Validation happens at the use site
//! ([`crate::backend::SlackBackend::watch`]).

use crate::text::{
    law_list_items, law_without_trailing, list_items, same_text, split_list, trim_end_matches,
    trimmed, without_trailing,
};
use vstd::prelude::*;

verus! {

/// Last-error string surfaced by `health()` when the app token is missing.
pub const MISSING_APP_TOKEN_MSG: &'static str = "SLACK_APP_TOKEN unset";

/// Last-error string surfaced by `health()` when the bot token is missing.
pub const MISSING_BOT_TOKEN_MSG: &'static str = "SLACK_BOT_TOKEN unset";

/// What a second `watch()` is told: the event stream is handed out once.
pub const ALREADY_WATCHING_MSG: &'static str = "event stream already handed out";

/// The Slack Web API's own address.
pub const DEFAULT_API_BASE: &'static str = "https://slack.com/api";

/// Configuration for the Slack trigger backend.
#[derive(Debug)]
pub struct SlackConfig {
    /// Socket Mode app-level token (`xapp-...`).
    pub app_token: Option<String>,
    /// Bot user OAuth token (`xoxb-...`).
    pub bot_token: Option<String>,
    /// Channel ids to allow (empty = all channels).
    pub filter_channels: Vec<String>,
    /// Base URL for the Slack Web API.
    pub slack_api_base: String,
}

/// What a configuration says.
pub struct SlackConfigView {
    pub app_token: Option<Seq<char>>,
    pub bot_token: Option<Seq<char>>,
    pub filter_channels: Seq<Seq<char>>,
    pub slack_api_base: Seq<char>,
}

impl View for SlackConfig {
    type V = SlackConfigView;

    open spec fn view(&self) -> SlackConfigView {
        SlackConfigView {
            app_token: self.app_token.deep_view(),
            bot_token: self.bot_token.deep_view(),
            filter_channels: self.filter_channels.deep_view(),
            slack_api_base: self.slack_api_base@,
        }
    }
}

/// A variable's value, where it is set and not empty.
pub open spec fn non_empty(value: Option<Seq<char>>) -> Option<Seq<char>> {
    match value {
        Some(s) => if s.len() == 0 {
            None
        } else {
            Some(s)
        },
        None => None,
    }
}

/// The configuration that the four variables stand for.
pub open spec fn config_from(
    app_token: Option<Seq<char>>,
    bot_token: Option<Seq<char>>,
    filter_channels: Option<Seq<char>>,
    api_base: Option<Seq<char>>,
) -> SlackConfigView {
    SlackConfigView {
        app_token: non_empty(app_token),
        bot_token: non_empty(bot_token),
        filter_channels: match filter_channels {
            Some(list) => list_items(list),
            None => Seq::empty(),
        },
        slack_api_base: match non_empty(api_base) {
            Some(base) => without_trailing(base, '/'),
            None => DEFAULT_API_BASE@,
        },
    }
}

impl SlackConfigView {
    /// Whether the app token is there.
    pub open spec fn has_app_token(self) -> bool {
        non_empty(self.app_token) is Some
    }

    /// Whether the bot token is there.
    pub open spec fn has_bot_token(self) -> bool {
        non_empty(self.bot_token) is Some
    }

    /// Whether both tokens are there.
    pub open spec fn has_credentials(self) -> bool {
        self.has_app_token() && self.has_bot_token()
    }

    /// Whether events from `channel` pass the allowlist.
    pub open spec fn allows(self, channel: Seq<char>) -> bool {
        self.filter_channels.len() == 0 || self.filter_channels.contains(channel)
    }
}

/// A variable's value, where it is set and not empty.
pub fn keep_non_empty(value: Option<String>) -> (r: Option<String>)
    ensures
        r.deep_view() == non_empty(value.deep_view()),
{
    match value {
        Some(s) => if s.as_str().is_empty() {
            None
        } else {
            Some(s)
        },
        None => None,
    }
}

/// Whether a value is there and not empty.
pub fn is_set(value: &Option<String>) -> (r: bool)
    ensures
        r == (non_empty(value.deep_view()) is Some),
{
    match value {
        Some(s) => !s.as_str().is_empty(),
        None => false,
    }
}

/// A copy of a list of strings.
fn copy_texts(texts: &Vec<String>) -> (r: Vec<String>)
    ensures
        r.deep_view() == texts.deep_view(),
{
    let mut out: Vec<String> = Vec::new();
    let mut at: usize = 0;
    while at < texts.len()
        invariant
            at <= texts@.len(),
            out@.len() == at,
            forall|i: int| 0 <= i < at ==> (#[trigger] out@[i])@ == texts@[i]@,
        decreases texts@.len() - at,
    {
        out.push(texts[at].clone());
        at = at + 1;
    }
    assert(out.deep_view() =~= texts.deep_view());
    out
}

impl Default for SlackConfig {
    fn default() -> (r: SlackConfig)
        ensures
            r@ == (SlackConfigView {
                app_token: None,
                bot_token: None,
                filter_channels: Seq::empty(),
                slack_api_base: Seq::empty(),
            }),
    {
        let r: SlackConfig = SlackConfig {
            app_token: None,
            bot_token: None,
            filter_channels: Vec::new(),
            slack_api_base: String::new(),
        };
        assert(r@.filter_channels =~= Seq::empty());
        r
    }
}

impl Clone for SlackConfig {
    fn clone(&self) -> (r: SlackConfig)
        ensures
            r@ == self@,
    {
        SlackConfig {
            app_token: self.app_token.clone(),
            bot_token: self.bot_token.clone(),
            filter_channels: copy_texts(&self.filter_channels),
            slack_api_base: self.slack_api_base.clone(),
        }
    }
}

impl SlackConfig {
    /// Load configuration from the environment: the values of
    /// `SLACK_APP_TOKEN`, `SLACK_BOT_TOKEN`, `SLACK_FILTER_CHANNELS` and
    /// `SLACK_API_BASE`, where they are set. It needs none of them.
    pub fn from_env(
        app_token: Option<String>,
        bot_token: Option<String>,
        filter_channels: Option<String>,
        api_base: Option<String>,
    ) -> (r: SlackConfig)
        ensures
            r@ == config_from(
                app_token.deep_view(),
                bot_token.deep_view(),
                filter_channels.deep_view(),
                api_base.deep_view(),
            ),
            app_token matches Some(token) ==> (token@.len() > 0 ==> r.app_token is Some
                && r.app_token->0@ == token@),
            bot_token matches Some(token) ==> (token@.len() > 0 ==> r.bot_token is Some
                && r.bot_token->0@ == token@),
            filter_channels matches Some(list) ==> r.filter_channels.deep_view() == list_items(
                list@,
            ),
            api_base matches Some(base) ==> (base@.len() > 0 ==> r.slack_api_base@
                == without_trailing(base@, '/')),
    {
        let filter_channels: Vec<String> = match filter_channels {
            Some(list) => split_list(list.as_str()),
            None => {
                let none: Vec<String> = Vec::new();
                assert(none.deep_view() =~= Seq::empty());
                none
            },
        };
        let slack_api_base: String = match keep_non_empty(api_base) {
            Some(base) => trim_end_matches(base.as_str(), '/').to_string(),
            None => DEFAULT_API_BASE.to_string(),
        };
        SlackConfig {
            app_token: keep_non_empty(app_token),
            bot_token: keep_non_empty(bot_token),
            filter_channels,
            slack_api_base,
        }
    }

    /// A fully populated configuration pointed at a mock server.
    pub fn for_testing(slack_api_base: &str) -> (r: SlackConfig)
        ensures
            r@ == (SlackConfigView {
                app_token: Some("xapp-test"@),
                bot_token: Some("xoxb-test"@),
                filter_channels: Seq::empty(),
                slack_api_base: slack_api_base@,
            }),
    {
        let r: SlackConfig = SlackConfig {
            app_token: Some("xapp-test".to_string()),
            bot_token: Some("xoxb-test".to_string()),
            filter_channels: Vec::new(),
            slack_api_base: slack_api_base.to_string(),
        };
        assert(r@.filter_channels =~= Seq::empty());
        r
    }

    /// `true` if both tokens are present.
    pub fn has_credentials(&self) -> (r: bool)
        ensures
            r == self@.has_credentials(),
            r ==> self.app_token is Some && self.app_token->0@.len() > 0 && self.bot_token is Some
                && self.bot_token->0@.len() > 0,
            self.app_token is Some && self.app_token->0@.len() > 0 && self.bot_token is Some
                && self.bot_token->0@.len() > 0 ==> r,
    {
        is_set(&self.app_token) && is_set(&self.bot_token)
    }

    /// `true` if `channel` passes the channel allowlist. An empty allowlist
    /// allows every channel.
    pub fn channel_allowed(&self, channel: &str) -> (r: bool)
        ensures
            r == self@.allows(channel@),
            self.filter_channels@.len() == 0 ==> r,
            self.filter_channels.deep_view().contains(channel@) ==> r,
            self.filter_channels@.len() > 0 && !self.filter_channels.deep_view().contains(channel@)
                ==> !r,
    {
        let n: usize = self.filter_channels.len();
        if n == 0 {
            return true;
        }
        let mut at: usize = 0;
        while at < n
            invariant
                n == self.filter_channels@.len(),
                at <= n,
                forall|i: int| 0 <= i < at ==> self@.filter_channels[i] != channel@,
            decreases n - at,
        {
            if same_text(self.filter_channels[at].as_str(), channel) {
                assert(self@.filter_channels[at as int] == channel@);
                return true;
            }
            at = at + 1;
        }
        false
    }
}

/// An empty allowlist lets every channel through, and one that is not empty
/// the channels on it alone.
pub proof fn law_allowlist(config: SlackConfigView, channel: Seq<char>)
    ensures
        config.filter_channels.len() == 0 ==> config.allows(channel),
        config.filter_channels.len() > 0 ==> (config.allows(channel)
            <==> config.filter_channels.contains(channel)),
{
}

/// Loading needs no variable, and keeps no empty token, no blank channel and no
/// slash at the end of the base URL.
pub proof fn law_loaded_config(
    app_token: Option<Seq<char>>,
    bot_token: Option<Seq<char>>,
    filter_channels: Option<Seq<char>>,
    api_base: Option<Seq<char>>,
)
    ensures
        ({
            let config = config_from(app_token, bot_token, filter_channels, api_base);
            &&& config.has_app_token() <==> config.app_token is Some
            &&& config.has_bot_token() <==> config.bot_token is Some
            &&& forall|i: int|
                0 <= i < config.filter_channels.len() ==> (#[trigger] config.filter_channels[i]).len()
                    > 0 && trimmed(config.filter_channels[i]) == config.filter_channels[i]
                    && !config.filter_channels[i].contains(',')
            &&& config.slack_api_base.len() > 0 ==> config.slack_api_base.last() != '/'
        }),
{
    let config = config_from(app_token, bot_token, filter_channels, api_base);
    assert forall|i: int| 0 <= i < config.filter_channels.len() implies (
    #[trigger] config.filter_channels[i]).len() > 0 && trimmed(config.filter_channels[i])
        == config.filter_channels[i] && !config.filter_channels[i].contains(',') by {
        law_list_items(filter_channels->0, i);
    }
    match non_empty(api_base) {
        Some(base) => {
            law_without_trailing(base, '/');
        },
        None => {
            reveal_strlit("https://slack.com/api");
        },
    }
}

/// A token is kept as it was given where it is not empty, and only there.
pub proof fn law_kept(value: Option<Seq<char>>)
    ensures
        value is None ==> non_empty(value) is None,
        value matches Some(s) && s.len() == 0 ==> non_empty(value) is None,
        value matches Some(s) ==> (s.len() > 0 ==> non_empty(value) == Some(s)),
{
}

/// What is loaded: each token as it was given where it is not empty, the items
/// of the channel list, and the base URL without slashes at its end, which is
/// Slack's own where none was given.
pub proof fn law_loading(
    app_token: Option<Seq<char>>,
    bot_token: Option<Seq<char>>,
    filter_channels: Option<Seq<char>>,
    api_base: Option<Seq<char>>,
)
    ensures
        ({
            let config = config_from(app_token, bot_token, filter_channels, api_base);
            &&& app_token is None ==> config.app_token is None
            &&& app_token matches Some(s) ==> (s.len() == 0 ==> config.app_token is None) && (
            s.len() > 0 ==> config.app_token == Some(s))
            &&& bot_token is None ==> config.bot_token is None
            &&& bot_token matches Some(s) ==> (s.len() == 0 ==> config.bot_token is None) && (
            s.len() > 0 ==> config.bot_token == Some(s))
            &&& filter_channels is None ==> config.filter_channels.len() == 0
            &&& filter_channels matches Some(list) ==> config.filter_channels == list_items(list)
            &&& api_base is None ==> config.slack_api_base == "https://slack.com/api"@
            &&& api_base matches Some(s) ==> (s.len() == 0 ==> config.slack_api_base
                == "https://slack.com/api"@) && (s.len() > 0 ==> config.slack_api_base
                == without_trailing(s, '/'))
        }),
{
}

/// Credentials are there where both tokens are, and neither is empty.
pub proof fn law_credentials(config: SlackConfigView)
    ensures
        config.has_app_token() <==> config.app_token is Some && config.app_token->0.len() > 0,
        config.has_bot_token() <==> config.bot_token is Some && config.bot_token->0.len() > 0,
        config.has_credentials() <==> config.has_app_token() && config.has_bot_token(),
{
}

/// The view of a configuration leaves nothing out.
pub proof fn law_config_view(config: SlackConfig)
    ensures
        config@.app_token == config.app_token.deep_view(),
        config@.bot_token == config.bot_token.deep_view(),
        config@.filter_channels == config.filter_channels.deep_view(),
        config@.slack_api_base == config.slack_api_base@,
{
}

} // verus!
