//! Reading the configuration.

use insights_bot::bot::{update_mode, UpdateMode};
use insights_bot::config::{narrow, url_shape, AppConfig, ConfigError, Locale, UrlShape};
use insights_bot::template::TemplateFault;

const BASE: [(&str, &str); 3] =
    [("TELEGRAM_BOT_TOKEN", "12:token"), ("REDIS_PORT", "6379"), ("OPENAI_API_SECRET", "key")];

/// The configuration of the usual variables and `extra` ones; an empty name takes a
/// variable away.
fn configured(extra: &[(&str, &str)]) -> Result<AppConfig, ConfigError> {
    AppConfig::from_lookup(|name: &str| {
        extra
            .iter()
            .chain(BASE.iter())
            .find(|pair| pair.0 == name)
            .map(|pair| pair.1.to_string())
    })
}

fn refusal(extra: &[(&str, &str)]) -> String {
    match configured(extra) {
        Ok(_) => panic!("the configuration is accepted"),
        Err(error) => error.message(),
    }
}

fn accepted(extra: &[(&str, &str)]) -> AppConfig {
    match configured(extra) {
        Ok(config) => config,
        Err(error) => panic!("{}", error.message()),
    }
}

#[test]
fn the_defaults_are_the_documented_ones() {
    let config = accepted(&[]);
    assert_eq!(config.locale, Locale::En);
    assert_eq!(config.telegram.api_endpoint, "https://api.telegram.org");
    assert_eq!(config.redis.host, "localhost");
    assert_eq!(config.redis.port, 6379);
    assert_eq!(config.redis.database, 0);
    assert_eq!(config.recap_openai.primary_model, "gpt-3.5-turbo");
    assert_eq!(config.recap_openai.token_limit, 4096);
    assert_eq!(config.recap_openai.recap_reserve, 2000);
    assert_eq!(config.recap_openai.summary_language, "Simplified Chinese");
    assert_eq!(config.manual_recap_rate_per_seconds, 0);
    assert_eq!(config.health_http_port, 7069);
    assert_eq!(config.locales_dir, "./locales");
    assert_eq!(config.log_level, "info");
}

#[test]
fn a_missing_requirement_is_named() {
    assert_eq!(refusal(&[("TELEGRAM_BOT_TOKEN", " ")]), "TELEGRAM_BOT_TOKEN is required");
    assert_eq!(
        refusal(&[("REDIS_PORT", "")]),
        "REDIS_PORT is required and must be in 1..=65535"
    );
    assert_eq!(refusal(&[("REDIS_PORT", "0")]), "REDIS_PORT must be in 1..=65535");
    assert_eq!(refusal(&[("REDIS_PORT", "65536")]), "REDIS_PORT must be in 1..=65535");
    assert_eq!(refusal(&[("OPENAI_API_SECRET", " ")]), "OPENAI_API_SECRET is required");
    assert_eq!(refusal(&[("HEALTH_HTTP_PORT", "0")]), "HEALTH_HTTP_PORT must be in 1..=65535");
    assert_eq!(accepted(&[("HEALTH_HTTP_PORT", "80")]).health_http_port, 80);
}

#[test]
fn the_older_key_serves_where_the_canonical_one_is_absent() {
    let lookup = |name: &str| match name {
        "TELEGRAM_BOT_TOKEN" => Some("t".to_string()),
        "REDIS_PORT" => Some("1".to_string()),
        "OPENAI_API_KEY" => Some("older".to_string()),
        _ => None,
    };
    match AppConfig::from_lookup(lookup) {
        Ok(config) => assert_eq!(config.openai.api_key, "older"),
        Err(error) => panic!("{}", error.message()),
    }
    let neither = |name: &str| match name {
        "TELEGRAM_BOT_TOKEN" => Some("t".to_string()),
        "REDIS_PORT" => Some("1".to_string()),
        _ => None,
    };
    assert!(matches!(AppConfig::from_lookup(neither), Err(ConfigError::ApiKeyMissing)));
    assert_eq!(ConfigError::ApiKeyMissing.message(), "OPENAI_API_KEY is required");
}

#[test]
fn the_endpoint_is_an_absolute_base() {
    let config = accepted(&[("TELEGRAM_BOT_API_ENDPOINT", "http://bot.local:8081/api//")]);
    assert_eq!(config.telegram.api_endpoint, "http://bot.local:8081/api");
    for bad in ["bot.local", "ftp://bot.local", "/path"] {
        assert_eq!(
            refusal(&[("TELEGRAM_BOT_API_ENDPOINT", bad)]),
            "TELEGRAM_BOT_API_ENDPOINT must be an absolute HTTP(S) base URL"
        );
    }
    assert_eq!(
        refusal(&[("TELEGRAM_BOT_API_ENDPOINT", "https://bot.local?x=1")]),
        "TELEGRAM_BOT_API_ENDPOINT must not contain a query or fragment"
    );
    assert_eq!(
        url_shape("https://host/#part"),
        Some(UrlShape { over_http: true, has_host: true, has_query: false, has_fragment: true })
    );
    assert_eq!(url_shape("::"), None);
}

#[test]
fn the_budget_is_strictly_positive() {
    assert_eq!(
        refusal(&[("OPENAI_API_TOKEN_LIMIT", "2000")]),
        "OPENAI_API_TOKEN_LIMIT minus OPENAI_API_CHAT_HISTORIES_RECAP_TOKEN_LIMIT must be strictly positive"
    );
    assert_eq!(accepted(&[("OPENAI_API_TOKEN_LIMIT", "2001")]).recap_openai.token_limit, 2001);
    assert_eq!(narrow(2001), Some(2001));
    assert_eq!(narrow(-1), None);
    assert_eq!(narrow(4_294_967_296), None);
}

#[test]
fn a_faulty_prompt_is_refused() {
    assert_eq!(
        refusal(&[("SARCASTIC_CONDENSED_USER_PROMPT", "{{ .ChatHistory")]),
        "SARCASTIC_CONDENSED_USER_PROMPT contains an unclosed template action"
    );
    assert_eq!(
        ConfigError::Prompt(TemplateFault::UnclosedControl).message(),
        "SARCASTIC_CONDENSED_USER_PROMPT contains an unclosed template control"
    );
}

#[test]
fn locales_are_read_back_from_their_codes() {
    for locale in [Locale::En, Locale::ZhHans, Locale::ZhHant] {
        assert_eq!(Locale::from_value(Some(locale.code())), locale);
    }
    assert_eq!(Locale::from_value(Some("zh-hans")), Locale::En);
    assert_eq!(Locale::from_value(None), Locale::En);
    assert_eq!(accepted(&[("INSIGHTS_LANG", "zh-Hant")]).locale, Locale::ZhHant);
}

#[test]
fn redis_settings_are_normalized() {
    let config = accepted(&[
        ("REDIS_HOST", "cache"),
        ("REDIS_TLS_ENABLED", "1"),
        ("REDIS_CLIENT_CACHE_ENABLED", "TRUE"),
        ("REDIS_DB", "-3"),
    ]);
    assert_eq!(config.redis.host, "cache");
    assert!(config.redis.tls_enabled);
    assert!(!config.redis.client_cache_enabled);
    assert_eq!(config.redis.database, 0);
    assert_eq!(config.redis.address(), "rediss://cache:6379");
}

#[test]
fn negative_intervals_become_zero() {
    let config = accepted(&[
        ("HARD_LIMIT_MANUAL_RECAP_RATE_PER_SECONDS", "-60"),
        ("TIMEZONE_SHIFT_SECONDS", "28800"),
        ("AUTO_RECAP_TEST_ENABLED", "true"),
        ("AUTO_RECAP_TEST_CHAT_ID", "-100"),
    ]);
    assert_eq!(config.manual_recap_rate_per_seconds, 0);
    assert_eq!(config.timezone_shift_seconds, 28_800);
    assert!(config.auto_recap_test.enabled);
    assert_eq!(config.auto_recap_test.chat_id, -100);
}

#[test]
fn backups_leave_out_blanks_repeats_and_the_primary_model() {
    let config = accepted(&[
        ("OPENAI_API_MODEL_NAME", "a"),
        ("OPENAI_API_MODEL_NAME_backup", "b, a,,c ,b"),
        ("CHECK_MODEL_backup", "d"),
    ]);
    assert_eq!(config.recap_openai.primary_backups, vec!["b".to_string(), "c".to_string()]);
    assert!(config.recap_openai.check_model.is_none());
    assert!(config.recap_openai.check_backups.is_empty());
}

#[test]
fn updates_are_polled_unless_a_webhook_is_given() {
    assert_eq!(update_mode(&None, Some(1), "12:t"), UpdateMode::Polling);
    assert_eq!(
        update_mode(&Some("https://host//".to_string()), None, "12:t"),
        UpdateMode::Webhook { url: "https://host/12:t".to_string(), port: 8443 }
    );
    assert_eq!(
        update_mode(&Some("https://host".to_string()), Some(80), "12:t"),
        UpdateMode::Webhook { url: "https://host/12:t".to_string(), port: 80 }
    );
}
