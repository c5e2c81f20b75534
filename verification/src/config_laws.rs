//! What holds of a configuration: every setting comes from its own variable, has its own
//! default, and is refused for its own reason.

use vstd::prelude::*;

use crate::config::{self, ConfigError, Environment, Locale, UrlShape};
use crate::numeral;
use crate::text;

verus! {

/// Whether a variable holds more than whitespace.
pub open spec fn given(env: Environment, name: Seq<char>) -> bool {
    env(name) is Some && !text::is_blank(env(name)->0)
}

/// Whether a variable spells a number.
pub open spec fn spells(env: Environment, name: Seq<char>, n: i64) -> bool {
    env(name) == Some(numeral::decimal(n as int))
}

/// Every text comes from its own variable, and where that is missing or blank, the default
/// stands in.
pub proof fn lemma_texts_from_their_variables(env: Environment, shape: Option<UrlShape>)
    requires
        config::configured(env, shape) is Ok,
    ensures
        ({
            let found = config::configured(env, shape)->Ok_0;
            &&& given(env, "TELEGRAM_BOT_TOKEN"@) && found.telegram.bot_token == env("TELEGRAM_BOT_TOKEN"@)->0
            &&& found.telegram.webhook_url == if given(env, "TELEGRAM_BOT_WEBHOOK_URL"@) {
                env("TELEGRAM_BOT_WEBHOOK_URL"@)
            } else {
                None
            }
            &&& found.redis.host == if given(env, "REDIS_HOST"@) {
                env("REDIS_HOST"@)->0
            } else {
                "localhost"@
            }
            &&& found.redis.username == if given(env, "REDIS_USERNAME"@) {
                env("REDIS_USERNAME"@)
            } else {
                None
            }
            &&& found.redis.password == if given(env, "REDIS_PASSWORD"@) {
                env("REDIS_PASSWORD"@)
            } else {
                None
            }
            &&& found.recap_openai.primary_model == if given(env, "OPENAI_API_MODEL_NAME"@) {
                env("OPENAI_API_MODEL_NAME"@)->0
            } else {
                "gpt-3.5-turbo"@
            }
            &&& found.openai.model == if given(env, "OPENAI_API_MODEL_NAME"@) {
                env("OPENAI_API_MODEL_NAME"@)->0
            } else {
                "gpt-3.5-turbo"@
            }
            &&& found.recap_openai.condensed_model == if given(env, "SARCASTIC_CONDENSED_MODEL_NAME"@) {
                env("SARCASTIC_CONDENSED_MODEL_NAME"@)->0
            } else {
                found.recap_openai.primary_model
            }
            &&& found.recap_openai.check_model == if given(env, "CHECK_MODEL"@) {
                env("CHECK_MODEL"@)
            } else {
                None
            }
            &&& found.recap_openai.summary_language == if given(env, "CHAT_HISTORIES_SUMMARIZATION_LANGUAGE"@) {
                env("CHAT_HISTORIES_SUMMARIZATION_LANGUAGE"@)->0
            } else {
                "Simplified Chinese"@
            }
            &&& found.condensed_prompts.system_prompt == if given(env, "SARCASTIC_CONDENSED_SYSTEM_PROMPT"@) {
                env("SARCASTIC_CONDENSED_SYSTEM_PROMPT"@)
            } else {
                None
            }
            &&& found.condensed_prompts.user_prompt == if given(env, "SARCASTIC_CONDENSED_USER_PROMPT"@) {
                env("SARCASTIC_CONDENSED_USER_PROMPT"@)
            } else {
                None
            }
            &&& found.log_level == if given(env, "LOG_LEVEL"@) {
                env("LOG_LEVEL"@)->0
            } else {
                "info"@
            }
            &&& found.log_file_path == if given(env, "LOG_FILE_PATH"@) {
                env("LOG_FILE_PATH"@)
            } else {
                None
            }
            &&& found.locales_dir == if given(env, "LOCALES_DIR"@) {
                env("LOCALES_DIR"@)->0
            } else {
                "./locales"@
            }
        }),
{
}

/// Every switch has its own variable, and is on for `true` and `1` alone.
pub proof fn lemma_switches_from_their_variables(env: Environment, shape: Option<UrlShape>)
    requires
        config::configured(env, shape) is Ok,
    ensures
        ({
            let found = config::configured(env, shape)->Ok_0;
            &&& found.redis.tls_enabled <==> env("REDIS_TLS_ENABLED"@) == Some("true"@) || env(
                "REDIS_TLS_ENABLED"@,
            ) == Some("1"@)
            &&& found.redis.client_cache_enabled <==> env("REDIS_CLIENT_CACHE_ENABLED"@) == Some("true"@) || env(
                "REDIS_CLIENT_CACHE_ENABLED"@,
            ) == Some("1"@)
            &&& found.recap_openai.force_check_failure <==> env("OPENAI_FORCE_CHECK_MODEL_FAILURE"@) == Some("true"@) || env(
                "OPENAI_FORCE_CHECK_MODEL_FAILURE"@,
            ) == Some("1"@)
            &&& found.recap_openai.force_condensed_primary_failure <==> env("OPENAI_FORCE_CONDENSED_PRIMARY_FAILURE_FOR_TEST"@) == Some("true"@) || env(
                "OPENAI_FORCE_CONDENSED_PRIMARY_FAILURE_FOR_TEST"@,
            ) == Some("1"@)
            &&& found.recap_openai.verbose_payload_logs <==> env("OPENAI_VERBOSE_PAYLOAD_LOGS"@) == Some("true"@) || env(
                "OPENAI_VERBOSE_PAYLOAD_LOGS"@,
            ) == Some("1"@)
            &&& found.auto_recap_test.enabled <==> env("AUTO_RECAP_TEST_ENABLED"@) == Some("true"@) || env(
                "AUTO_RECAP_TEST_ENABLED"@,
            ) == Some("1"@)
        }),
{
}

proof fn lemma_numbers_are_no_blanks(n: int)
    ensures
        !text::is_blank(numeral::decimal(n)),
{
    let digits = numeral::decimal(n);
    numeral::lemma_decimal_chars(n);
    let (a, b) = text::lemma_trimmed_shape(digits);
    if a == b {
        assert(text::is_white(digits[0]));
    }
}

/// Every number comes from its own variable, and where that spells none that is of use,
/// the default stands in.
pub proof fn lemma_numbers_from_their_variables(
    env: Environment,
    shape: Option<UrlShape>,
    n: i64,
)
    requires
        config::configured(env, shape) is Ok,
    ensures
        ({
            let found = config::configured(env, shape)->Ok_0;
            let recap = found.recap_openai;
            &&& spells(env, "OPENAI_API_TOKEN_LIMIT"@, n) ==> recap.token_limit == if n > 0 {
                n
            } else {
                4096
            }
            &&& !given(env, "OPENAI_API_TOKEN_LIMIT"@) ==> recap.token_limit == 4096
            &&& spells(env, "OPENAI_API_CHAT_HISTORIES_RECAP_TOKEN_LIMIT"@, n)
                ==> recap.recap_reserve == if n > 0 {
                n
            } else {
                2000
            }
            &&& !given(env, "OPENAI_API_CHAT_HISTORIES_RECAP_TOKEN_LIMIT"@) ==> recap.recap_reserve
                == 2000
            &&& spells(env, "HARD_LIMIT_MANUAL_RECAP_RATE_PER_SECONDS"@, n)
                ==> found.manual_recap_rate_per_seconds == if n >= 0 {
                n
            } else {
                0
            }
            &&& !given(env, "HARD_LIMIT_MANUAL_RECAP_RATE_PER_SECONDS"@)
                ==> found.manual_recap_rate_per_seconds == 0
            &&& spells(env, "TIMEZONE_SHIFT_SECONDS"@, n) ==> found.timezone_shift_seconds == n
            &&& !given(env, "TIMEZONE_SHIFT_SECONDS"@) ==> found.timezone_shift_seconds == 0
            &&& spells(env, "AUTO_RECAP_TEST_CHAT_ID"@, n) ==> found.auto_recap_test.chat_id == n
            &&& !given(env, "AUTO_RECAP_TEST_CHAT_ID"@) ==> found.auto_recap_test.chat_id == 0
            &&& spells(env, "REDIS_DB"@, n) ==> found.redis.database == if 0 <= n <= u32::MAX {
                n as int
            } else {
                0
            }
            &&& !given(env, "REDIS_DB"@) ==> found.redis.database == 0
            &&& !given(env, "HEALTH_HTTP_PORT"@) ==> found.health_http_port == 7069
        }),
{
    numeral::lemma_decimal_reads_back(n as int);
    lemma_numbers_are_no_blanks(n as int);
}

/// The address of PostgreSQL comes from one variable before the other; a file of SQLite is
/// taken where it is given, and where nothing is, there is a default one.
pub proof fn lemma_databases_from_their_variables(env: Environment, shape: Option<UrlShape>)
    requires
        config::configured(env, shape) is Ok,
    ensures
        ({
            let found = config::configured(env, shape)->Ok_0.db;
            &&& given(env, "DATABASE_URL"@) ==> found.postgres_url == env("DATABASE_URL"@)
            &&& !given(env, "DATABASE_URL"@) && given(env, "DB_CONNECTION_STR"@)
                ==> found.postgres_url == env("DB_CONNECTION_STR"@)
            &&& !given(env, "DATABASE_URL"@) && !given(env, "DB_CONNECTION_STR"@)
                ==> found.postgres_url is None
            &&& given(env, "SQLITE_PATH"@) ==> found.sqlite_file == env("SQLITE_PATH"@)
            &&& !given(env, "SQLITE_PATH"@) && found.postgres_url is Some
                ==> found.sqlite_file is None
            &&& !given(env, "SQLITE_PATH"@) && found.postgres_url is None ==> found.sqlite_file
                == Some("data/dev.db"@)
        }),
{
}

/// The key comes from the canonical variable where that is there at all, and else from
/// the other.
pub proof fn lemma_key_from_its_variables(env: Environment, shape: Option<UrlShape>)
    requires
        config::configured(env, shape) is Ok,
    ensures
        ({
            let found = config::configured(env, shape)->Ok_0;
            &&& env("OPENAI_API_SECRET"@) is Some ==> found.openai.api_key
                == env("OPENAI_API_SECRET"@)->0
            &&& env("OPENAI_API_SECRET"@) is None ==> Some(found.openai.api_key)
                == env("OPENAI_API_KEY"@)
            &&& found.locale == Locale::ZhHans <==> env("INSIGHTS_LANG"@) == Some("zh-Hans"@)
            &&& found.locale == Locale::ZhHant <==> env("INSIGHTS_LANG"@) == Some("zh-Hant"@)
        }),
{
    reveal_strlit("zh-Hans");
    reveal_strlit("zh-Hant");
    assert("zh-Hans"@[6] != "zh-Hant"@[6]);
}

/// Backups are those of their own variable, for their own model.
pub proof fn lemma_backups_from_their_variables(env: Environment, shape: Option<UrlShape>)
    requires
        config::configured(env, shape) is Ok,
    ensures
        ({
            let found = config::configured(env, shape)->Ok_0.recap_openai;
            &&& given(env, "OPENAI_API_MODEL_NAME_backup"@) ==> found.primary_backups
                == config::backups_of(env("OPENAI_API_MODEL_NAME_backup"@), found.primary_model)
            &&& !given(env, "OPENAI_API_MODEL_NAME_backup"@) ==> found.primary_backups.len() == 0
            &&& given(env, "SARCASTIC_CONDENSED_MODEL_NAME_backup"@) ==> found.condensed_backups
                == config::backups_of(
                env("SARCASTIC_CONDENSED_MODEL_NAME_backup"@),
                found.condensed_model,
            )
            &&& !given(env, "SARCASTIC_CONDENSED_MODEL_NAME_backup"@)
                ==> found.condensed_backups.len() == 0
            &&& found.check_model is Some && given(env, "CHECK_MODEL_backup"@)
                ==> found.check_backups == config::backups_of(
                env("CHECK_MODEL_backup"@),
                found.check_model->0,
            )
            &&& found.check_model is None || !given(env, "CHECK_MODEL_backup"@)
                ==> found.check_backups.len() == 0
        }),
{
}

/// A backup is never the model that it stands in for, none comes twice, and each is one of
/// those that are listed.
pub proof fn lemma_backups_are_others(raw: Seq<char>, primary: Seq<char>, i: int, j: int)
    requires
        0 <= i < j < config::backups_of(Some(raw), primary).len(),
    ensures
        ({
            let found = config::backups_of(Some(raw), primary);
            &&& found[i] != primary
            &&& found[i].len() > 0
            &&& found[i] != found[j]
        }),
{
    config::lemma_backups(Some(raw), primary);
}

/// A configuration is refused for what is missing, in this order.
pub proof fn lemma_refusals_in_order(env: Environment, shape: Option<UrlShape>)
    ensures
        ({
            let result = config::configured(env, shape);
            let token = given(env, "TELEGRAM_BOT_TOKEN"@);
            let good = shape is Some && shape->0.over_http && shape->0.has_host
                && !shape->0.has_query && !shape->0.has_fragment;
            &&& !token <==> result == Err::<config::AppModel, ConfigError>(
                ConfigError::BotTokenMissing,
            )
            &&& token && (shape is None || !shape->0.over_http || !shape->0.has_host) <==> result
                == Err::<config::AppModel, ConfigError>(ConfigError::EndpointNotAbsolute)
            &&& token && shape is Some && shape->0.over_http && shape->0.has_host && (
            shape->0.has_query || shape->0.has_fragment) <==> result == Err::<
                config::AppModel,
                ConfigError,
            >(ConfigError::EndpointQueryOrFragment)
            &&& token && good && !given(env, "REDIS_PORT"@) <==> result == Err::<
                config::AppModel,
                ConfigError,
            >(ConfigError::RedisPortMissing)
            &&& result is Ok ==> given(env, "REDIS_PORT"@) && (given(env, "OPENAI_API_SECRET"@)
                || given(env, "OPENAI_API_KEY"@))
            &&& result == Err::<config::AppModel, ConfigError>(ConfigError::ApiSecretMissing)
                ==> env("OPENAI_API_SECRET"@) is Some && !given(env, "OPENAI_API_SECRET"@)
            &&& result == Err::<config::AppModel, ConfigError>(ConfigError::ApiKeyMissing) ==> env(
                "OPENAI_API_SECRET"@,
            ) is None && !given(env, "OPENAI_API_KEY"@)
        }),
{
}

/// The address of the store names its scheme, its host and its port, and no credentials.
pub proof fn lemma_store_address(redis: config::RedisModel)
    ensures
        redis.tls_enabled ==> config::redis_address(redis) == "rediss"@ + "://"@ + redis.host
            + ":"@ + numeral::decimal(redis.port as int),
        !redis.tls_enabled ==> config::redis_address(redis) == "redis"@ + "://"@ + redis.host
            + ":"@ + numeral::decimal(redis.port as int),
{
}

/// The address of the models ends in its version, once, and has no slash behind it.
pub proof fn lemma_models_address(host: Seq<char>)
    ensures
        config::api_base(Some(host)) is Some,
        "/v1"@.is_suffix_of(config::api_base(Some(host))->0),
        config::api_base(None) is None,
{
    let base = text::trim_end_class(host, text::CharClass::Exactly('/'));
    let whole = base + "/v1"@;
    assert(whole.subrange(whole.len() - "/v1"@.len(), whole.len() as int) =~= "/v1"@);
}

} // verus!
