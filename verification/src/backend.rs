//! [`SlackBackend`]: the trigger backend for Slack.
//!
//! Holds a [`SlackConfig`], and whether the event stream has been handed out:
//! [`SlackBackend::watch`] hands it out exactly once.

use crate::config::{
    is_set, SlackConfig, SlackConfigView, ALREADY_WATCHING_MSG, MISSING_APP_TOKEN_MSG,
    MISSING_BOT_TOKEN_MSG,
};
use crate::events::{KIND_SLACK_DM, KIND_SLACK_MENTION};
use crate::protocol::{BackendError, HealthCheckResult, HealthStatus, TriggerSchema};
use vstd::prelude::*;

verus! {

/// The Slack trigger backend.
#[derive(Debug)]
pub struct SlackBackend {
    config: SlackConfig,
    watching: bool,
}

/// The message on the first credential that is missing.
pub open spec fn missing_credential(config: SlackConfigView) -> Option<Seq<char>> {
    if !config.has_app_token() {
        Some(MISSING_APP_TOKEN_MSG@)
    } else if !config.has_bot_token() {
        Some(MISSING_BOT_TOKEN_MSG@)
    } else {
        None
    }
}

/// Whether this is the answer to a health check under `config`.
pub open spec fn is_health_of(health: HealthCheckResult, config: SlackConfigView) -> bool {
    &&& health.status == (if config.has_credentials() {
        HealthStatus::Healthy
    } else {
        HealthStatus::Unhealthy
    })
    &&& health.last_error.deep_view() == missing_credential(config)
    &&& health.uptime_ms is None
    &&& health.memory_usage_bytes is None
}

/// Whether this is the schema of the Slack backend.
pub open spec fn is_slack_schema(schema: TriggerSchema) -> bool {
    &&& schema.kinds.deep_view() == seq![KIND_SLACK_MENTION@, KIND_SLACK_DM@]
    &&& schema.supports_resume
    &&& !schema.supports_dedup
    &&& schema.supports_ack
}

/// Why there is no stream for a watch: a credential is missing, or the stream
/// was handed out before.
pub open spec fn watch_refusal(config: SlackConfigView, watching: bool) -> Option<Seq<char>> {
    match missing_credential(config) {
        Some(message) => Some(message),
        None => if watching {
            Some(ALREADY_WATCHING_MSG@)
        } else {
            None
        },
    }
}

/// Whether this is the answer to a watch under `config`, where the stream was
/// handed out before or not.
pub open spec fn is_watch_of(
    watch: Result<SlackConfig, BackendError>,
    config: SlackConfigView,
    watching: bool,
) -> bool {
    match watch {
        Ok(watched) => watch_refusal(config, watching) is None && watched@ == config,
        Err(BackendError::Unavailable(message)) => watch_refusal(config, watching) == Some(
            message@,
        ),
    }
}

impl SlackBackend {
    /// The backend's configuration.
    pub closed spec fn spec_config(self) -> SlackConfig {
        self.config
    }

    /// Whether the event stream has been handed out.
    pub closed spec fn spec_watching(self) -> bool {
        self.watching
    }

    /// Build a backend from configuration.
    pub fn new(config: SlackConfig) -> (r: SlackBackend)
        ensures
            r.spec_config() == config,
            !r.spec_watching(),
    {
        SlackBackend { config, watching: false }
    }

    /// Return the backend's configuration (read-only).
    pub fn config(&self) -> (r: &SlackConfig)
        ensures
            *r == self.spec_config(),
    {
        &self.config
    }

    /// The message on the first credential that is missing.
    fn missing(&self) -> (r: Option<String>)
        ensures
            r.deep_view() == missing_credential(self.spec_config()@),
    {
        if !is_set(&self.config.app_token) {
            Some(MISSING_APP_TOKEN_MSG.to_string())
        } else if !is_set(&self.config.bot_token) {
            Some(MISSING_BOT_TOKEN_MSG.to_string())
        } else {
            None
        }
    }

    /// The events that the backend emits, and what it supports.
    ///
    /// Socket Mode reconnects on its own across restarts, so the backend
    /// resumes. Event ids are stable, but the host keeps its own dedup table.
    /// Slack acks happen in-socket; `trigger/ack` is a no-op that the host may
    /// call.
    pub fn schema(&self) -> (r: TriggerSchema)
        ensures
            is_slack_schema(r),
            r.kinds.deep_view() == seq!["slack.mention"@, "slack.dm"@],
            r.supports_resume && !r.supports_dedup && r.supports_ack,
    {
        let mut kinds: Vec<String> = Vec::new();
        kinds.push(KIND_SLACK_MENTION.to_string());
        kinds.push(KIND_SLACK_DM.to_string());
        assert(kinds.deep_view() =~= seq![KIND_SLACK_MENTION@, KIND_SLACK_DM@]);
        TriggerSchema { kinds, supports_resume: true, supports_dedup: false, supports_ack: true }
    }

    /// Hands out the event stream: the configuration to watch with, where both
    /// credentials are there and it was not handed out before. The first
    /// credential that is missing makes the backend unavailable.
    pub fn watch(&mut self) -> (r: Result<SlackConfig, BackendError>)
        ensures
            is_watch_of(r, old(self).spec_config()@, old(self).spec_watching()),
            final(self).spec_watching() == (old(self).spec_watching() || r is Ok),
            final(self).spec_config() == old(self).spec_config(),
    {
        match self.missing() {
            Some(message) => Err(BackendError::Unavailable(message)),
            None => if self.watching {
                Err(BackendError::Unavailable(ALREADY_WATCHING_MSG.to_string()))
            } else {
                self.watching = true;
                Ok(self.config.clone())
            },
        }
    }

    /// Slack acks each envelope inside the socket loop, not per event id:
    /// nothing is left to do.
    pub fn ack(&self, _event_id: &str) -> (r: Result<(), BackendError>)
        ensures
            r is Ok,
    {
        Ok(())
    }

    /// Healthy where both credentials are there, else unhealthy with the first
    /// that is missing. A health check does not fail.
    pub fn health(&self) -> (r: Result<HealthCheckResult, BackendError>)
        ensures
            r matches Ok(health) && is_health_of(health, self.spec_config()@),
    {
        let last_error: Option<String> = self.missing();
        let status: HealthStatus = if last_error.is_some() {
            HealthStatus::Unhealthy
        } else {
            HealthStatus::Healthy
        };
        Ok(HealthCheckResult { status, uptime_ms: None, memory_usage_bytes: None, last_error })
    }
}

/// The backend is healthy where both credentials are there, and then its stream
/// can be watched once; a missing credential is what a health check reports and
/// a watch fails with.
pub proof fn law_health_and_watch(
    health: HealthCheckResult,
    watch: Result<SlackConfig, BackendError>,
    config: SlackConfigView,
    watching: bool,
)
    requires
        is_health_of(health, config),
        is_watch_of(watch, config, watching),
    ensures
        health.status == HealthStatus::Healthy <==> config.has_credentials(),
        watch is Ok <==> config.has_credentials() && !watching,
        !config.has_credentials() ==> (watch matches Err(BackendError::Unavailable(message))
            && health.last_error.deep_view() == Some(message@)),
{
}

/// Whether these are the answers to the watches of one backend, one after the
/// other, and whether the stream was handed out before each.
pub open spec fn are_watches_of(
    watches: Seq<Result<SlackConfig, BackendError>>,
    watching: Seq<bool>,
    config: SlackConfigView,
) -> bool {
    &&& watching.len() == watches.len() + 1
    &&& forall|i: int|
        0 <= i < watches.len() ==> is_watch_of(#[trigger] watches[i], config, watching[i])
            && watching[i + 1] == (watching[i] || watches[i] is Ok)
}

proof fn lemma_watching_stays(
    watches: Seq<Result<SlackConfig, BackendError>>,
    watching: Seq<bool>,
    config: SlackConfigView,
    i: int,
    j: int,
)
    requires
        are_watches_of(watches, watching, config),
        0 <= i <= j < watching.len(),
        watching[i],
    ensures
        watching[j],
    decreases j - i,
{
    if i < j {
        assert(is_watch_of(watches[i], config, watching[i]));
        lemma_watching_stays(watches, watching, config, i + 1, j);
    }
}

/// However often a backend is watched, it hands out its stream exactly once
/// where both credentials are there, and never where one is missing.
pub proof fn law_watch_once(
    watches: Seq<Result<SlackConfig, BackendError>>,
    watching: Seq<bool>,
    config: SlackConfigView,
    i: int,
)
    requires
        are_watches_of(watches, watching, config),
        !watching[0],
        0 <= i < watches.len(),
    ensures
        watches[i] is Ok <==> i == 0 && config.has_credentials(),
{
    assert(is_watch_of(watches[0], config, watching[0]));
    assert(is_watch_of(watches[i], config, watching[i]));
    if i > 0 && config.has_credentials() {
        lemma_watching_stays(watches, watching, config, 1, i);
    }
}

/// A health check names the app token where it is missing, else the bot token
/// where that is missing, and nothing else makes the backend unhealthy.
pub proof fn law_health(health: HealthCheckResult, config: SlackConfigView)
    requires
        is_health_of(health, config),
    ensures
        ({
            let app = config.app_token is Some && config.app_token->0.len() > 0;
            let bot = config.bot_token is Some && config.bot_token->0.len() > 0;
            &&& app && bot ==> health.status == HealthStatus::Healthy && health.last_error is None
            &&& !app ==> health.status == HealthStatus::Unhealthy && health.last_error is Some
                && health.last_error->0@ == "SLACK_APP_TOKEN unset"@
            &&& app && !bot ==> health.status == HealthStatus::Unhealthy && health.last_error is Some
                && health.last_error->0@ == "SLACK_BOT_TOKEN unset"@
        }),
        health.uptime_ms is None,
        health.memory_usage_bytes is None,
{
}

/// A watch gives the backend's whole configuration where both tokens are there
/// and the stream was not handed out, and otherwise says what stands against it.
pub proof fn law_watch(
    watch: Result<SlackConfig, BackendError>,
    config: SlackConfigView,
    watching: bool,
)
    requires
        is_watch_of(watch, config, watching),
    ensures
        ({
            let app = config.app_token is Some && config.app_token->0.len() > 0;
            let bot = config.bot_token is Some && config.bot_token->0.len() > 0;
            &&& app && bot && !watching ==> (watch matches Ok(given) && given@ == config)
            &&& !app ==> (watch matches Err(BackendError::Unavailable(message)) && message@
                == "SLACK_APP_TOKEN unset"@)
            &&& app && !bot ==> (watch matches Err(BackendError::Unavailable(message)) && message@
                == "SLACK_BOT_TOKEN unset"@)
            &&& app && bot && watching ==> (watch matches Err(BackendError::Unavailable(message))
                && message@ == "event stream already handed out"@)
        }),
{
}

/// The schema names the two kinds of event.
pub proof fn law_schema(schema: TriggerSchema)
    requires
        is_slack_schema(schema),
    ensures
        schema.kinds.deep_view() == seq!["slack.mention"@, "slack.dm"@],
        schema.supports_resume,
        !schema.supports_dedup,
        schema.supports_ack,
{
}

} // verus!
