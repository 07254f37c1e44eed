use animus_trigger_slack::backend::SlackBackend;
use animus_trigger_slack::config::{SlackConfig, DEFAULT_API_BASE};
use animus_trigger_slack::events::{KIND_SLACK_DM, KIND_SLACK_MENTION};
use animus_trigger_slack::protocol::{BackendError, HealthStatus};
use animus_trigger_slack::text;

fn set(value: &str) -> Option<String> {
    Some(value.to_string())
}

#[test]
fn channel_filter_allows_all_when_empty() {
    let config = SlackConfig::for_testing("http://localhost");
    assert!(config.channel_allowed("C-anything"));
}

#[test]
fn channel_filter_restricts_when_set() {
    let mut config = SlackConfig::for_testing("http://localhost");
    config.filter_channels = vec!["C-allow".to_string()];
    assert!(config.channel_allowed("C-allow"));
    assert!(!config.channel_allowed("C-deny"));
}

#[test]
fn from_env_succeeds_without_credentials() {
    let config = SlackConfig::from_env(None, None, None, None);
    assert!(config.app_token.is_none());
    assert!(config.bot_token.is_none());
    assert!(config.filter_channels.is_empty());
    assert_eq!(config.slack_api_base, "https://slack.com/api");
}

#[test]
fn variables_are_cleaned() {
    let config = SlackConfig::from_env(
        set(""),
        set("xoxb-1"),
        set(" C1, ,C2 ,,\tC3\n,"),
        set("http://host/api//"),
    );
    assert_eq!(config.app_token, None);
    assert_eq!(config.bot_token.as_deref(), Some("xoxb-1"));
    assert_eq!(config.filter_channels, vec!["C1", "C2", "C3"]);
    assert_eq!(config.slack_api_base, "http://host/api");
    assert!(!config.has_credentials());
    assert!(config.channel_allowed("C2"));
    assert!(!config.channel_allowed(" C2"));
}

#[test]
fn an_empty_base_is_the_default_and_a_blank_list_is_empty() {
    let config = SlackConfig::from_env(set("a"), set("b"), set(" , "), set(""));
    assert_eq!(config.slack_api_base, DEFAULT_API_BASE);
    assert!(config.filter_channels.is_empty());
    assert!(config.has_credentials());
    assert!(config.channel_allowed("anything"));
}

#[test]
fn a_clean_list_reads_back() {
    let items = vec!["C1".to_string(), "C 2".to_string(), "C3".to_string()];
    assert_eq!(text::split_list(&items.join(",")), items);
    assert!(text::split_list("").is_empty());
}

#[test]
fn a_copy_of_a_configuration_is_equal() {
    let config = SlackConfig::from_env(set("a"), None, set("C1,C2"), set("http://h"));
    let copy = config.clone();
    assert_eq!(copy.app_token, config.app_token);
    assert_eq!(copy.bot_token, config.bot_token);
    assert_eq!(copy.filter_channels, config.filter_channels);
    assert_eq!(copy.slack_api_base, config.slack_api_base);
    let backend = SlackBackend::new(config);
    assert_eq!(backend.config().slack_api_base, "http://h");
}

#[test]
fn schema_advertises_slack_kinds() {
    let backend = SlackBackend::new(SlackConfig::for_testing("http://localhost"));
    let schema = backend.schema();
    assert!(schema.kinds.iter().any(|k| k == KIND_SLACK_MENTION));
    assert!(schema.kinds.iter().any(|k| k == KIND_SLACK_DM));
    assert!(schema.supports_resume);
    assert!(!schema.supports_dedup);
    assert!(schema.supports_ack);
}

#[test]
fn health_unhealthy_when_tokens_missing() {
    let backend = SlackBackend::new(SlackConfig::default());
    let health = backend.health().expect("health should not error");
    assert_eq!(health.status, HealthStatus::Unhealthy);
    let last_error = health.last_error.expect("last_error should be set");
    assert!(
        last_error.contains("SLACK_APP_TOKEN"),
        "expected SLACK_APP_TOKEN in last_error, got {last_error}"
    );
}

#[test]
fn health_unhealthy_when_bot_token_missing() {
    let config = SlackConfig {
        app_token: Some("xapp-only".to_string()),
        ..SlackConfig::default()
    };
    let backend = SlackBackend::new(config);
    let health = backend.health().expect("health should not error");
    assert_eq!(health.status, HealthStatus::Unhealthy);
    let last_error = health.last_error.expect("last_error should be set");
    assert!(
        last_error.contains("SLACK_BOT_TOKEN"),
        "expected SLACK_BOT_TOKEN in last_error, got {last_error}"
    );
}

#[test]
fn health_healthy_when_tokens_set() {
    let backend = SlackBackend::new(SlackConfig::for_testing("http://localhost"));
    let health = backend.health().expect("health should not error");
    assert_eq!(health.status, HealthStatus::Healthy);
    assert!(health.last_error.is_none());
    assert_eq!(health.uptime_ms, None);
    assert_eq!(health.memory_usage_bytes, None);
}

#[test]
fn watch_unavailable_when_credentials_missing() {
    let mut backend = SlackBackend::new(SlackConfig::default());
    match backend.watch() {
        Ok(_) => panic!("watch should fail when credentials are missing"),
        Err(BackendError::Unavailable(message)) => assert!(
            message.contains("SLACK_APP_TOKEN"),
            "expected SLACK_APP_TOKEN in error: {message}"
        ),
    }
}

#[test]
fn watch_gives_the_configuration_where_both_tokens_are_there() {
    let mut backend = SlackBackend::new(SlackConfig::for_testing("http://localhost"));
    let config = backend.watch().expect("available");
    assert_eq!(config.slack_api_base, "http://localhost");
    let mut half = SlackBackend::new(SlackConfig::from_env(set("a"), set(""), None, None));
    match half.watch() {
        Ok(_) => panic!("the bot token is missing"),
        Err(BackendError::Unavailable(message)) => assert_eq!(message, "SLACK_BOT_TOKEN unset"),
    }
}

#[test]
fn watch_hands_out_the_stream_once() {
    let mut backend = SlackBackend::new(SlackConfig::for_testing("http://localhost"));
    assert!(backend.watch().is_ok());
    for _ in 0..2 {
        match backend.watch() {
            Ok(_) => panic!("the stream is handed out once"),
            Err(BackendError::Unavailable(message)) => {
                assert_eq!(message, "event stream already handed out");
            }
        }
    }
    let health = backend.health().expect("health should not error");
    assert_eq!(health.status, HealthStatus::Healthy);
}

#[test]
fn ack_is_no_op() {
    let backend = SlackBackend::new(SlackConfig::for_testing("http://localhost"));
    let result = backend.ack("doesnt-matter");
    assert!(result.is_ok(), "ack should succeed");
}

#[test]
fn white_space_is_unicode_white_space() {
    for c in '\0'..=char::MAX {
        assert_eq!(text::white_space(c), c.is_whitespace(), "{c:?}");
    }
}

#[test]
fn text_is_trimmed() {
    for s in ["", " ", "a", " a b\t", "\u{3000}x\u{2028}", "\n\n", "\u{e9} \u{e9} "] {
        assert_eq!(text::trim(s), s.trim());
        assert_eq!(text::trim(text::trim(s)), s.trim());
    }
    for s in ["", "/", "a//", "/a/b", "//a//"] {
        assert_eq!(text::trim_end_matches(s, '/'), s.trim_end_matches('/'));
    }
}

#[test]
fn numbers_read_and_write() {
    for s in [
        "", "+", "-", "0", "-0", "+7", "--1", "12a", "007", "4294967295", "4294967296",
        "9223372036854775807", "9223372036854775808", "-9223372036854775808",
        "-9223372036854775809", "99999999999999999999999", "\u{0664}",
    ] {
        assert_eq!(text::parse_i64(s), s.parse::<i64>().ok(), "{s}");
        assert_eq!(text::parse_u32(s), s.parse::<u32>().ok(), "{s}");
    }
    for n in [0, 9, 10, 99, 100, 503, 65535, u64::MAX] {
        assert_eq!(text::decimal_text(n), n.to_string());
    }
    assert_eq!(text::parse_i64(&text::decimal_text(1234567890)), Some(1234567890));
}

#[test]
fn text_is_compared_and_searched() {
    assert!(text::same_text("caf\u{e9}", "caf\u{e9}"));
    assert!(!text::same_text("a", "ab"));
    assert!(text::starts_with("$/cancel", "$/"));
    assert!(!text::starts_with("$", "$/"));
    assert!(text::starts_with("abc", ""));
    assert_eq!(text::find("a\u{e9}.b.c", '.'), 2);
    assert_eq!(text::find("abc", '.'), 3);
}
