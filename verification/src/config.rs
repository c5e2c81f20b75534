//! Configuration read from named values.

use vstd::prelude::*;

use crate::numeral::{self, parse_i64, parse_u16};
use crate::template::{self, TemplateFault};
use crate::text::{self, same, CharClass};

verus! {

pub const OFFICIAL_TELEGRAM_API_ENDPOINT: &'static str = "https://api.telegram.org";

// ---------------------------------------------------------------------------
// Lookups
// ---------------------------------------------------------------------------

/// The values that a lookup answers with.
pub type Environment = spec_fn(Seq<char>) -> Option<Seq<char>>;

/// Whether `lookup` answers every key as `env` does.
pub open spec fn answers<F: Fn(&str) -> Option<String>>(lookup: F, env: Environment) -> bool {
    forall|key: &str, answer: Option<String>| #[trigger]
        lookup.ensures((key,), answer) ==> text::viewed(answer) == env(key@)
}

/// A value that is more than whitespace.
pub open spec fn filled(value: Option<Seq<char>>) -> Option<Seq<char>> {
    match value {
        Some(found) => if text::is_blank(found) {
            None
        } else {
            Some(found)
        },
        None => None,
    }
}

/// `value`, or `default` where there is none.
pub open spec fn or_text(value: Option<Seq<char>>, default: Seq<char>) -> Seq<char> {
    match value {
        Some(found) => found,
        None => default,
    }
}

/// Switches accept exactly `true` and `1`.
pub open spec fn switched_on(value: Option<Seq<char>>) -> bool {
    value == Some("true"@) || value == Some("1"@)
}

/// The 64-bit integer that a value spells.
pub open spec fn integer(value: Option<Seq<char>>) -> Option<int> {
    match value {
        Some(found) => numeral::parsed_within(found, i64::MIN as int, i64::MAX as int),
        None => None,
    }
}

pub open spec fn integer_or(value: Option<Seq<char>>, default: int) -> int {
    match integer(value) {
        Some(n) => n,
        None => default,
    }
}

pub open spec fn positive_or(value: Option<Seq<char>>, default: int) -> int {
    match integer(value) {
        Some(n) => if n > 0 {
            n
        } else {
            default
        },
        None => default,
    }
}

pub open spec fn nonnegative_or_zero(value: Option<Seq<char>>) -> int {
    match integer(value) {
        Some(n) => if n >= 0 {
            n
        } else {
            0
        },
        None => 0,
    }
}

/// A database index: anything that is no 32-bit unsigned integer selects 0.
pub open spec fn index_or_zero(value: Option<Seq<char>>) -> int {
    let n = nonnegative_or_zero(value);
    if n <= u32::MAX {
        n
    } else {
        0
    }
}

/// The narrowing of a positive limit to 32 bits.
pub open spec fn narrowed(n: int) -> Option<u32> {
    if 0 <= n <= u32::MAX {
        Some(n as u32)
    } else {
        None
    }
}

fn optional_non_empty<F: Fn(&str) -> Option<String>>(lookup: &F, key: &str) -> (r: Option<String>)
    requires
        forall|k: &str| lookup.requires((k,)),
    ensures
        forall|env: Environment| #[trigger]
            answers(*lookup, env) ==> text::viewed(r) == filled(env(key@)),
{
    match lookup(key) {
        Some(value) => if text::blank(value.as_str()) {
            None
        } else {
            Some(value)
        },
        None => None,
    }
}

fn bool_switch<F: Fn(&str) -> Option<String>>(lookup: &F, key: &str) -> (r: bool)
    requires
        forall|k: &str| lookup.requires((k,)),
    ensures
        forall|env: Environment| #[trigger] answers(*lookup, env) ==> r == switched_on(env(key@)),
{
    match lookup(key) {
        Some(value) => same(value.as_str(), "true") || same(value.as_str(), "1"),
        None => false,
    }
}

fn parsed(value: &Option<String>) -> (r: Option<i64>)
    ensures
        match r {
            Some(n) => integer(text::viewed(*value)) == Some(n as int),
            None => integer(text::viewed(*value)) is None,
        },
{
    match value {
        Some(found) => parse_i64(found.as_str()),
        None => None,
    }
}

fn positive_i64_or_default(value: Option<String>, default: i64) -> (n: i64)
    ensures
        n == positive_or(text::viewed(value), default as int),
{
    match parsed(&value) {
        Some(n) => if n > 0 {
            n
        } else {
            default
        },
        None => default,
    }
}

fn nonnegative_i64_or_zero(value: Option<String>) -> (n: i64)
    ensures
        n == nonnegative_or_zero(text::viewed(value)),
{
    match parsed(&value) {
        Some(n) => if n >= 0 {
            n
        } else {
            0
        },
        None => 0,
    }
}

fn nonnegative_u32_or_zero(value: Option<String>) -> (n: u32)
    ensures
        n == index_or_zero(text::viewed(value)),
{
    let n: i64 = nonnegative_i64_or_zero(value);
    if n <= 4_294_967_295 {
        n as u32
    } else {
        0
    }
}

fn i64_or_zero(value: Option<String>) -> (n: i64)
    ensures
        n == integer_or(text::viewed(value), 0),
{
    match parsed(&value) {
        Some(n) => n,
        None => 0,
    }
}

pub fn narrow(n: i64) -> (r: Option<u32>)
    ensures
        r == narrowed(n as int),
{
    if 0 <= n && n <= 4_294_967_295 {
        Some(n as u32)
    } else {
        None
    }
}

fn or_default(value: Option<String>, default: &str) -> (out: String)
    ensures
        out@ == or_text(text::viewed(value), default@),
{
    match value {
        Some(found) => found,
        None => default.to_owned(),
    }
}

// ---------------------------------------------------------------------------
// Backup models
// ---------------------------------------------------------------------------

/// The backups named by the entries from `i` on, after those already in `kept`: entries
/// are trimmed, and empty ones, repeated ones and the primary itself are dropped.
pub open spec fn backups_from(
    entries: Seq<Seq<char>>,
    i: int,
    primary: Seq<char>,
    kept: Seq<Seq<char>>,
) -> Seq<Seq<char>>
    decreases entries.len() - i,
{
    if i < 0 || i >= entries.len() {
        kept
    } else {
        let candidate = text::trimmed(entries[i]);
        if candidate.len() == 0 || candidate == primary || kept.contains(candidate) {
            backups_from(entries, i + 1, primary, kept)
        } else {
            backups_from(entries, i + 1, primary, kept.push(candidate))
        }
    }
}

/// The backup models of `primary` that a comma-separated value names.
pub open spec fn backups_of(raw: Option<Seq<char>>, primary: Seq<char>) -> Seq<Seq<char>> {
    match raw {
        Some(value) => backups_from(text::pieces(value, ','), 0, primary, Seq::empty()),
        None => Seq::empty(),
    }
}

fn listed(names: &Vec<String>, name: &str) -> (r: bool)
    ensures
        r == text::texts(names@).contains(name@),
{
    let mut i: usize = 0;
    while i < names.len()
        invariant
            i <= names.len(),
            forall|k: int| 0 <= k < i ==> text::texts(names@)[k] != name@,
        decreases names.len() - i,
    {
        if same(names[i].as_str(), name) {
            assert(text::texts(names@)[i as int] == name@);
            return true;
        }
        i = i + 1;
    }
    false
}

fn normalized_backups(raw: Option<String>, primary: &str) -> (out: Vec<String>)
    ensures
        text::texts(out@) == backups_of(text::viewed(raw), primary@),
{
    let mut kept: Vec<String> = Vec::new();
    assert(text::texts(kept@) =~= Seq::<Seq<char>>::empty());
    match raw {
        None => kept,
        Some(value) => {
            let entries: Vec<String> = text::split(value.as_str(), ',');
            let ghost all = text::texts(entries@);
            let mut i: usize = 0;
            while i < entries.len()
                invariant
                    i <= entries.len(),
                    all == text::texts(entries@),
                    backups_from(all, i as int, primary@, text::texts(kept@)) == backups_from(
                        all,
                        0,
                        primary@,
                        Seq::empty(),
                    ),
                decreases entries.len() - i,
            {
                let candidate: String = text::trim(entries[i].as_str());
                assert(all[i as int] == entries@[i as int]@);
                let ghost before = text::texts(kept@);
                if candidate.as_str().unicode_len() > 0 && !same(candidate.as_str(), primary)
                    && !listed(&kept, candidate.as_str()) {
                    kept.push(candidate);
                    assert(text::texts(kept@) =~= before.push(candidate@));
                }
                i = i + 1;
            }
            kept
        },
    }
}

proof fn lemma_backups_from(
    entries: Seq<Seq<char>>,
    i: int,
    primary: Seq<char>,
    kept: Seq<Seq<char>>,
)
    requires
        0 <= i <= entries.len(),
        kept.no_duplicates(),
        forall|k: int|
            0 <= k < kept.len() ==> #[trigger] kept[k] != primary && kept[k].len() > 0
                && text::trimmed(kept[k]) == kept[k],
    ensures
        ({
            let all = backups_from(entries, i, primary, kept);
            &&& all.no_duplicates()
            &&& forall|k: int|
                0 <= k < all.len() ==> #[trigger] all[k] != primary && all[k].len() > 0
                    && text::trimmed(all[k]) == all[k]
        }),
    decreases entries.len() - i,
{
    if i < entries.len() {
        let candidate = text::trimmed(entries[i]);
        text::lemma_trim_idempotent(entries[i]);
        if candidate.len() == 0 || candidate == primary || kept.contains(candidate) {
            lemma_backups_from(entries, i + 1, primary, kept);
        } else {
            let next = kept.push(candidate);
            assert forall|k: int| 0 <= k < next.len() implies #[trigger] next[k] != primary
                && next[k].len() > 0 && text::trimmed(next[k]) == next[k] by {
                if k < kept.len() {
                    assert(next[k] == kept[k]);
                }
            }
            assert(next.no_duplicates()) by {
                assert forall|a: int, b: int|
                    0 <= a < next.len() && 0 <= b < next.len() && a != b implies next[a]
                    != next[b] by {
                    if a < kept.len() && b < kept.len() {
                        assert(kept[a] != kept[b]);
                    } else if a < kept.len() {
                        assert(kept.contains(kept[a]));
                    } else {
                        assert(kept.contains(kept[b]));
                    }
                }
            }
            lemma_backups_from(entries, i + 1, primary, next);
        }
    }
}

/// Backup models are distinct, trimmed, not empty, and never the primary model.
pub proof fn lemma_backups(raw: Option<Seq<char>>, primary: Seq<char>)
    ensures
        backups_of(raw, primary).no_duplicates(),
        !backups_of(raw, primary).contains(primary),
        forall|k: int|
            0 <= k < backups_of(raw, primary).len() ==> (#[trigger] backups_of(
                raw,
                primary,
            )[k]).len() > 0 && text::trimmed(backups_of(raw, primary)[k]) == backups_of(
                raw,
                primary,
            )[k],
{
    match raw {
        Some(value) => {
            lemma_backups_from(text::pieces(value, ','), 0, primary, Seq::empty());
        },
        None => {},
    }
}

// ---------------------------------------------------------------------------
// Endpoints
// ---------------------------------------------------------------------------

/// What the checks on an endpoint read of a parsed URL.
#[derive(Debug, Clone, Copy, PartialEq, Eq, Structural)]
pub struct UrlShape {
    /// The scheme is `http` or `https`.
    pub over_http: bool,
    pub has_host: bool,
    pub has_query: bool,
    pub has_fragment: bool,
}

/// What `url::Url::parse` makes of a text, as far as endpoints are concerned: none where
/// it fails, else the scheme, whether there is a host, a query and a fragment.
pub uninterp spec fn url_parts(s: Seq<char>) -> Option<(Seq<char>, bool, bool, bool)>;

/// `url::Url::parse`, then `scheme`, `host_str`, `query` and `fragment` of what it gives:
/// the result is named and nothing more is claimed.
#[verifier::external_body]
pub(crate) fn parse_url(text: &str) -> (r: Option<(String, bool, bool, bool)>)
    ensures
        match r {
            Some(parts) => url_parts(text@) == Some((parts.0@, parts.1, parts.2, parts.3)),
            None => url_parts(text@) is None,
        },
{
    match url::Url::parse(text) {
        Ok(parsed) => Some((
            parsed.scheme().to_owned(),
            parsed.host_str().is_some(),
            parsed.query().is_some(),
            parsed.fragment().is_some(),
        )),
        Err(_) => None,
    }
}

/// The shape that the parts of a URL have.
pub open spec fn shape_of(parts: Option<(Seq<char>, bool, bool, bool)>) -> Option<UrlShape> {
    match parts {
        Some(found) => Some(
            UrlShape {
                over_http: found.0 == "http"@ || found.0 == "https"@,
                has_host: found.1,
                has_query: found.2,
                has_fragment: found.3,
            },
        ),
        None => None,
    }
}

/// Read the shape of `text` as a URL.
pub fn url_shape(text: &str) -> (r: Option<UrlShape>)
    ensures
        r == shape_of(url_parts(text@)),
{
    match parse_url(text) {
        Some((scheme, has_host, has_query, has_fragment)) => Some(
            UrlShape {
                over_http: same(scheme.as_str(), "http") || same(scheme.as_str(), "https"),
                has_host,
                has_query,
                has_fragment,
            },
        ),
        None => None,
    }
}

/// The endpoint to use: the configured one or the official one, without trailing
/// slashes.
pub open spec fn endpoint_of(configured: Option<Seq<char>>) -> Seq<char> {
    text::trim_end_class(
        or_text(configured, OFFICIAL_TELEGRAM_API_ENDPOINT@),
        CharClass::Exactly('/'),
    )
}

/// What is wrong with an endpoint of that shape.
pub open spec fn endpoint_fault(shape: Option<UrlShape>) -> Option<ConfigError> {
    match shape {
        None => Some(ConfigError::EndpointNotAbsolute),
        Some(found) => if !found.over_http || !found.has_host {
            Some(ConfigError::EndpointNotAbsolute)
        } else if found.has_query || found.has_fragment {
            Some(ConfigError::EndpointQueryOrFragment)
        } else {
            None
        },
    }
}

fn check_endpoint(shape: Option<UrlShape>) -> (r: Option<ConfigError>)
    ensures
        r == endpoint_fault(shape),
{
    match shape {
        None => Some(ConfigError::EndpointNotAbsolute),
        Some(found) => if !found.over_http || !found.has_host {
            Some(ConfigError::EndpointNotAbsolute)
        } else if found.has_query || found.has_fragment {
            Some(ConfigError::EndpointQueryOrFragment)
        } else {
            None
        },
    }
}

/// The OpenAI base address: without trailing slashes, and ending in `/v1`.
pub open spec fn api_base(value: Option<Seq<char>>) -> Option<Seq<char>> {
    match value {
        Some(host) => {
            let base = text::trim_end_class(host, CharClass::Exactly('/'));
            if "/v1"@.is_suffix_of(base) {
                Some(base)
            } else {
                Some(base + "/v1"@)
            }
        },
        None => None,
    }
}

fn openai_api_base(value: Option<String>) -> (r: Option<String>)
    ensures
        text::viewed(r) == api_base(text::viewed(value)),
{
    match value {
        Some(host) => {
            let base: String = text::trim_end_of(host.as_str(), CharClass::Exactly('/'));
            if text::ends_with(base.as_str(), "/v1") {
                Some(base)
            } else {
                Some(text::joined2(base.as_str(), "/v1"))
            }
        },
        None => None,
    }
}

// ---------------------------------------------------------------------------
// Settings
// ---------------------------------------------------------------------------

#[derive(Clone, Copy, Debug, PartialEq, Eq, Structural)]
pub enum Locale {
    En,
    ZhHans,
    ZhHant,
}

/// Anything but the two Chinese locales is English.
pub open spec fn locale_of(value: Option<Seq<char>>) -> Locale {
    if value == Some("zh-Hans"@) {
        Locale::ZhHans
    } else if value == Some("zh-Hant"@) {
        Locale::ZhHant
    } else {
        Locale::En
    }
}

pub open spec fn locale_code(locale: Locale) -> Seq<char> {
    match locale {
        Locale::En => "en"@,
        Locale::ZhHans => "zh-Hans"@,
        Locale::ZhHant => "zh-Hant"@,
    }
}

impl Locale {
    /// The locale that a stored value names.
    pub fn from_value(value: Option<&str>) -> (r: Self)
        ensures
            r == locale_of(
                match value {
                    Some(found) => Some(found@),
                    None => None,
                },
            ),
    {
        match value {
            Some(found) => if same(found, "zh-Hans") {
                Locale::ZhHans
            } else if same(found, "zh-Hant") {
                Locale::ZhHant
            } else {
                Locale::En
            },
            None => Locale::En,
        }
    }

    fn from_lookup<F: Fn(&str) -> Option<String>>(lookup: &F) -> (r: Self)
        requires
            forall|k: &str| lookup.requires((k,)),
        ensures
            forall|env: Environment| #[trigger]
                answers(*lookup, env) ==> r == locale_of(env("INSIGHTS_LANG"@)),
    {
        match lookup("INSIGHTS_LANG") {
            Some(value) => Locale::from_value(Some(value.as_str())),
            None => Locale::En,
        }
    }

    pub fn code(&self) -> (out: &'static str)
        ensures
            out@ == locale_code(*self),
    {
        match self {
            Locale::En => "en",
            Locale::ZhHans => "zh-Hans",
            Locale::ZhHant => "zh-Hant",
        }
    }
}

/// A locale is read back from its code.
pub proof fn lemma_locale_code(locale: Locale)
    ensures
        locale_of(Some(locale_code(locale))) == locale,
{
    reveal_strlit("en");
    reveal_strlit("zh-Hans");
    reveal_strlit("zh-Hant");
    assert("en"@.len() == 2 && "zh-Hans"@.len() == 7 && "zh-Hant"@.len() == 7);
    assert("zh-Hans"@[6] == 's' && "zh-Hant"@[6] == 't');
}

pub struct TelegramConfig {
    pub bot_token: String,
    pub api_endpoint: String,
    pub webhook_url: Option<String>,
    pub webhook_port: Option<u16>,
}

#[verifier::ext_equal]
pub struct TelegramModel {
    pub bot_token: Seq<char>,
    pub api_endpoint: Seq<char>,
    pub webhook_url: Option<Seq<char>>,
    pub webhook_port: Option<u16>,
}

impl View for TelegramConfig {
    type V = TelegramModel;

    open spec fn view(&self) -> TelegramModel {
        TelegramModel {
            bot_token: self.bot_token@,
            api_endpoint: self.api_endpoint@,
            webhook_url: text::viewed(self.webhook_url),
            webhook_port: self.webhook_port,
        }
    }
}

pub struct DbConfig {
    pub postgres_url: Option<String>,
    pub sqlite_file: Option<String>,
}

#[verifier::ext_equal]
pub struct DbModel {
    pub postgres_url: Option<Seq<char>>,
    pub sqlite_file: Option<Seq<char>>,
}

impl View for DbConfig {
    type V = DbModel;

    open spec fn view(&self) -> DbModel {
        DbModel {
            postgres_url: text::viewed(self.postgres_url),
            sqlite_file: text::viewed(self.sqlite_file),
        }
    }
}

pub struct OpenAiConfig {
    pub api_key: String,
    pub api_base: Option<String>,
    pub model: String,
    pub token_limit: Option<u32>,
    pub recap_token_limit: Option<u32>,
}

#[verifier::ext_equal]
pub struct OpenAiModel {
    pub api_key: Seq<char>,
    pub api_base: Option<Seq<char>>,
    pub model: Seq<char>,
    pub token_limit: Option<u32>,
    pub recap_token_limit: Option<u32>,
}

impl View for OpenAiConfig {
    type V = OpenAiModel;

    open spec fn view(&self) -> OpenAiModel {
        OpenAiModel {
            api_key: self.api_key@,
            api_base: text::viewed(self.api_base),
            model: self.model@,
            token_limit: self.token_limit,
            recap_token_limit: self.recap_token_limit,
        }
    }
}

pub struct RedisConfig {
    pub host: String,
    pub port: u16,
    pub tls_enabled: bool,
    pub username: Option<String>,
    pub password: Option<String>,
    pub database: u32,
    pub client_cache_enabled: bool,
}

#[verifier::ext_equal]
pub struct RedisModel {
    pub host: Seq<char>,
    pub port: u16,
    pub tls_enabled: bool,
    pub username: Option<Seq<char>>,
    pub password: Option<Seq<char>>,
    pub database: u32,
    pub client_cache_enabled: bool,
}

impl View for RedisConfig {
    type V = RedisModel;

    open spec fn view(&self) -> RedisModel {
        RedisModel {
            host: self.host@,
            port: self.port,
            tls_enabled: self.tls_enabled,
            username: text::viewed(self.username),
            password: text::viewed(self.password),
            database: self.database,
            client_cache_enabled: self.client_cache_enabled,
        }
    }
}

/// The address of the Redis server: only the scheme, the host and the port, never the
/// credentials.
pub open spec fn redis_address(redis: RedisModel) -> Seq<char> {
    (if redis.tls_enabled {
        "rediss"@
    } else {
        "redis"@
    }) + "://"@ + redis.host + ":"@ + numeral::decimal(redis.port as int)
}

impl RedisConfig {
    pub fn address(&self) -> (out: String)
        ensures
            out@ == redis_address(self@),
    {
        let scheme: &str = if self.tls_enabled {
            "rediss"
        } else {
            "redis"
        };
        let port: String = numeral::format_i64(self.port as i64);
        let front: String = text::joined3(scheme, "://", self.host.as_str());
        let out: String = text::joined3(front.as_str(), ":", port.as_str());
        assert(out@ =~= redis_address(self@));
        out
    }
}

#[derive(Debug)]
pub struct RecapOpenAiConfig {
    pub primary_model: String,
    pub primary_backups: Vec<String>,
    pub condensed_model: String,
    pub condensed_backups: Vec<String>,
    pub check_model: Option<String>,
    pub check_backups: Vec<String>,
    pub token_limit: i64,
    pub recap_reserve: i64,
    pub summary_language: String,
    pub force_check_failure: bool,
    pub force_condensed_primary_failure: bool,
    pub verbose_payload_logs: bool,
}

#[verifier::ext_equal]
pub struct RecapModel {
    pub primary_model: Seq<char>,
    pub primary_backups: Seq<Seq<char>>,
    pub condensed_model: Seq<char>,
    pub condensed_backups: Seq<Seq<char>>,
    pub check_model: Option<Seq<char>>,
    pub check_backups: Seq<Seq<char>>,
    pub token_limit: i64,
    pub recap_reserve: i64,
    pub summary_language: Seq<char>,
    pub force_check_failure: bool,
    pub force_condensed_primary_failure: bool,
    pub verbose_payload_logs: bool,
}

impl View for RecapOpenAiConfig {
    type V = RecapModel;

    open spec fn view(&self) -> RecapModel {
        RecapModel {
            primary_model: self.primary_model@,
            primary_backups: text::texts(self.primary_backups@),
            condensed_model: self.condensed_model@,
            condensed_backups: text::texts(self.condensed_backups@),
            check_model: text::viewed(self.check_model),
            check_backups: text::texts(self.check_backups@),
            token_limit: self.token_limit,
            recap_reserve: self.recap_reserve,
            summary_language: self.summary_language@,
            force_check_failure: self.force_check_failure,
            force_condensed_primary_failure: self.force_condensed_primary_failure,
            verbose_payload_logs: self.verbose_payload_logs,
        }
    }
}

pub struct CondensedPromptConfig {
    pub system_prompt: Option<String>,
    pub user_prompt: Option<String>,
}

#[verifier::ext_equal]
pub struct PromptsModel {
    pub system_prompt: Option<Seq<char>>,
    pub user_prompt: Option<Seq<char>>,
}

impl View for CondensedPromptConfig {
    type V = PromptsModel;

    open spec fn view(&self) -> PromptsModel {
        PromptsModel {
            system_prompt: text::viewed(self.system_prompt),
            user_prompt: text::viewed(self.user_prompt),
        }
    }
}

#[derive(Clone, Copy, Debug, PartialEq, Eq, Structural)]
pub struct AutoRecapTestConfig {
    pub enabled: bool,
    pub chat_id: i64,
}

pub struct AppConfig {
    pub locale: Locale,
    pub telegram: TelegramConfig,
    pub db: DbConfig,
    pub redis: RedisConfig,
    pub openai: OpenAiConfig,
    pub recap_openai: RecapOpenAiConfig,
    pub condensed_prompts: CondensedPromptConfig,
    pub manual_recap_rate_per_seconds: i64,
    pub timezone_shift_seconds: i64,
    pub auto_recap_test: AutoRecapTestConfig,
    pub health_http_port: u16,
    pub log_level: String,
    pub log_file_path: Option<String>,
    pub locales_dir: String,
}

#[verifier::ext_equal]
pub struct AppModel {
    pub locale: Locale,
    pub telegram: TelegramModel,
    pub db: DbModel,
    pub redis: RedisModel,
    pub openai: OpenAiModel,
    pub recap_openai: RecapModel,
    pub condensed_prompts: PromptsModel,
    pub manual_recap_rate_per_seconds: i64,
    pub timezone_shift_seconds: i64,
    pub auto_recap_test: AutoRecapTestConfig,
    pub health_http_port: u16,
    pub log_level: Seq<char>,
    pub log_file_path: Option<Seq<char>>,
    pub locales_dir: Seq<char>,
}

impl View for AppConfig {
    type V = AppModel;

    open spec fn view(&self) -> AppModel {
        AppModel {
            locale: self.locale,
            telegram: self.telegram@,
            db: self.db@,
            redis: self.redis@,
            openai: self.openai@,
            recap_openai: self.recap_openai@,
            condensed_prompts: self.condensed_prompts@,
            manual_recap_rate_per_seconds: self.manual_recap_rate_per_seconds,
            timezone_shift_seconds: self.timezone_shift_seconds,
            auto_recap_test: self.auto_recap_test,
            health_http_port: self.health_http_port,
            log_level: self.log_level@,
            log_file_path: text::viewed(self.log_file_path),
            locales_dir: self.locales_dir@,
        }
    }
}

// ---------------------------------------------------------------------------
// Errors
// ---------------------------------------------------------------------------

/// Why a configuration is refused.
#[derive(Debug, Clone, Copy, PartialEq, Eq, Structural)]
pub enum ConfigError {
    BotTokenMissing,
    EndpointNotAbsolute,
    EndpointQueryOrFragment,
    RedisPortMissing,
    RedisPortRange,
    ApiKeyMissing,
    ApiSecretMissing,
    TokenBudget,
    Prompt(TemplateFault),
    HealthPortRange,
}

pub open spec fn config_message(error: ConfigError) -> Seq<char> {
    match error {
        ConfigError::BotTokenMissing => "TELEGRAM_BOT_TOKEN is required"@,
        ConfigError::EndpointNotAbsolute =>
            "TELEGRAM_BOT_API_ENDPOINT must be an absolute HTTP(S) base URL"@,
        ConfigError::EndpointQueryOrFragment =>
            "TELEGRAM_BOT_API_ENDPOINT must not contain a query or fragment"@,
        ConfigError::RedisPortMissing => "REDIS_PORT is required and must be in 1..=65535"@,
        ConfigError::RedisPortRange => "REDIS_PORT must be in 1..=65535"@,
        ConfigError::ApiKeyMissing => "OPENAI_API_KEY is required"@,
        ConfigError::ApiSecretMissing => "OPENAI_API_SECRET is required"@,
        ConfigError::TokenBudget =>
            "OPENAI_API_TOKEN_LIMIT minus OPENAI_API_CHAT_HISTORIES_RECAP_TOKEN_LIMIT must be strictly positive"@,
        ConfigError::Prompt(fault) => "SARCASTIC_CONDENSED_USER_PROMPT contains an "@ + match fault {
            TemplateFault::UnclosedAction => "unclosed template action"@,
            TemplateFault::EmptyAction => "empty template action"@,
            TemplateFault::UnexpectedEnd => "unexpected template end"@,
            TemplateFault::UnexpectedElse => "unexpected template else"@,
            TemplateFault::UnexpectedClose => "unexpected template close"@,
            TemplateFault::UnclosedControl => "unclosed template control"@,
        },
        ConfigError::HealthPortRange => "HEALTH_HTTP_PORT must be in 1..=65535"@,
    }
}

impl ConfigError {
    pub fn message(self) -> (out: String)
        ensures
            out@ == config_message(self),
    {
        match self {
            ConfigError::BotTokenMissing => "TELEGRAM_BOT_TOKEN is required".to_owned(),
            ConfigError::EndpointNotAbsolute =>
                "TELEGRAM_BOT_API_ENDPOINT must be an absolute HTTP(S) base URL".to_owned(),
            ConfigError::EndpointQueryOrFragment =>
                "TELEGRAM_BOT_API_ENDPOINT must not contain a query or fragment".to_owned(),
            ConfigError::RedisPortMissing =>
                "REDIS_PORT is required and must be in 1..=65535".to_owned(),
            ConfigError::RedisPortRange => "REDIS_PORT must be in 1..=65535".to_owned(),
            ConfigError::ApiKeyMissing => "OPENAI_API_KEY is required".to_owned(),
            ConfigError::ApiSecretMissing => "OPENAI_API_SECRET is required".to_owned(),
            ConfigError::TokenBudget =>
                "OPENAI_API_TOKEN_LIMIT minus OPENAI_API_CHAT_HISTORIES_RECAP_TOKEN_LIMIT must be strictly positive".to_owned(),
            ConfigError::Prompt(fault) => {
                let what: &str = match fault {
                    TemplateFault::UnclosedAction => "unclosed template action",
                    TemplateFault::EmptyAction => "empty template action",
                    TemplateFault::UnexpectedEnd => "unexpected template end",
                    TemplateFault::UnexpectedElse => "unexpected template else",
                    TemplateFault::UnexpectedClose => "unexpected template close",
                    TemplateFault::UnclosedControl => "unclosed template control",
                };
                text::joined2("SARCASTIC_CONDENSED_USER_PROMPT contains an ", what)
            },
            ConfigError::HealthPortRange => "HEALTH_HTTP_PORT must be in 1..=65535".to_owned(),
        }
    }
}

/// The Redis port, which must be given and lie in `1..=65535`.
pub open spec fn port_of(value: Option<Seq<char>>) -> Result<u16, ConfigError> {
    match value {
        None => Err(ConfigError::RedisPortMissing),
        Some(found) => match numeral::parsed_unsigned(found, u16::MAX as int) {
            None => Err(ConfigError::RedisPortRange),
            Some(port) => if port == 0 {
                Err(ConfigError::RedisPortRange)
            } else {
                Ok(port as u16)
            },
        },
    }
}

fn redis_port(value: Option<String>) -> (r: Result<u16, ConfigError>)
    ensures
        r == port_of(text::viewed(value)),
{
    match value {
        None => Err(ConfigError::RedisPortMissing),
        Some(found) => match parse_u16(found.as_str()) {
            None => Err(ConfigError::RedisPortRange),
            Some(port) => if port == 0 {
                Err(ConfigError::RedisPortRange)
            } else {
                Ok(port)
            },
        },
    }
}

/// The port that readiness is reported on where none is given.
pub const DEFAULT_HEALTH_HTTP_PORT: u16 = 7069;

/// The port that readiness is reported on, which must lie in `1..=65535` where it is given.
pub open spec fn health_port_of(value: Option<Seq<char>>) -> Result<u16, ConfigError> {
    match value {
        None => Ok(DEFAULT_HEALTH_HTTP_PORT),
        Some(found) => match numeral::parsed_unsigned(found, u16::MAX as int) {
            None => Err(ConfigError::HealthPortRange),
            Some(port) => if port == 0 {
                Err(ConfigError::HealthPortRange)
            } else {
                Ok(port as u16)
            },
        },
    }
}

fn health_port(value: Option<String>) -> (r: Result<u16, ConfigError>)
    ensures
        r == health_port_of(text::viewed(value)),
{
    match value {
        None => Ok(DEFAULT_HEALTH_HTTP_PORT),
        Some(found) => match parse_u16(found.as_str()) {
            None => Err(ConfigError::HealthPortRange),
            Some(port) => if port == 0 {
                Err(ConfigError::HealthPortRange)
            } else {
                Ok(port)
            },
        },
    }
}

/// The webhook port, none where the value is no port number.
pub open spec fn webhook_port_of(value: Option<Seq<char>>) -> Option<u16> {
    match value {
        None => None,
        Some(found) => match numeral::parsed_unsigned(found, u16::MAX as int) {
            None => None,
            Some(port) => Some(port as u16),
        },
    }
}

fn webhook_port(value: Option<String>) -> (r: Option<u16>)
    ensures
        r == webhook_port_of(text::viewed(value)),
{
    match value {
        None => None,
        Some(found) => parse_u16(found.as_str()),
    }
}

/// The API key: the canonical variable where it is set at all, else the older one.
pub open spec fn key_of(env: Environment) -> Result<Seq<char>, ConfigError> {
    match env("OPENAI_API_SECRET"@) {
        Some(secret) => if text::is_blank(secret) {
            Err(ConfigError::ApiSecretMissing)
        } else {
            Ok(secret)
        },
        None => match filled(env("OPENAI_API_KEY"@)) {
            Some(key) => Ok(key),
            None => Err(ConfigError::ApiKeyMissing),
        },
    }
}

/// What is wrong with the prompt template, if one is given.
pub open spec fn prompt_fault(template: Option<Seq<char>>) -> Option<TemplateFault> {
    match template {
        Some(found) => template::template_fault(found, 0),
        None => None,
    }
}

// ---------------------------------------------------------------------------
// The whole configuration
// ---------------------------------------------------------------------------

pub open spec fn telegram_of(env: Environment) -> TelegramModel {
    TelegramModel {
        bot_token: or_text(filled(env("TELEGRAM_BOT_TOKEN"@)), Seq::empty()),
        api_endpoint: endpoint_of(filled(env("TELEGRAM_BOT_API_ENDPOINT"@))),
        webhook_url: filled(env("TELEGRAM_BOT_WEBHOOK_URL"@)),
        webhook_port: webhook_port_of(filled(env("TELEGRAM_BOT_WEBHOOK_PORT"@))),
    }
}

/// Postgres where an address is given; the SQLite file where one is given, or as a
/// default without Postgres.
pub open spec fn db_of(env: Environment) -> DbModel {
    let postgres_url = match filled(env("DATABASE_URL"@)) {
        Some(url) => Some(url),
        None => filled(env("DB_CONNECTION_STR"@)),
    };
    DbModel {
        postgres_url,
        sqlite_file: match filled(env("SQLITE_PATH"@)) {
            Some(path) => Some(path),
            None => if postgres_url is None {
                Some("data/dev.db"@)
            } else {
                None
            },
        },
    }
}

pub open spec fn redis_of(env: Environment, port: u16) -> RedisModel {
    RedisModel {
        host: or_text(filled(env("REDIS_HOST"@)), "localhost"@),
        port,
        tls_enabled: switched_on(env("REDIS_TLS_ENABLED"@)),
        username: filled(env("REDIS_USERNAME"@)),
        password: filled(env("REDIS_PASSWORD"@)),
        database: index_or_zero(filled(env("REDIS_DB"@))) as u32,
        client_cache_enabled: switched_on(env("REDIS_CLIENT_CACHE_ENABLED"@)),
    }
}

pub open spec fn recap_of(env: Environment) -> RecapModel {
    let primary_model = or_text(filled(env("OPENAI_API_MODEL_NAME"@)), "gpt-3.5-turbo"@);
    let condensed_model = or_text(
        filled(env("SARCASTIC_CONDENSED_MODEL_NAME"@)),
        primary_model,
    );
    let check_model = filled(env("CHECK_MODEL"@));
    RecapModel {
        primary_model,
        primary_backups: backups_of(
            filled(env("OPENAI_API_MODEL_NAME_backup"@)),
            primary_model,
        ),
        condensed_model,
        condensed_backups: backups_of(
            filled(env("SARCASTIC_CONDENSED_MODEL_NAME_backup"@)),
            condensed_model,
        ),
        check_model,
        check_backups: match check_model {
            Some(primary) => backups_of(filled(env("CHECK_MODEL_backup"@)), primary),
            None => Seq::empty(),
        },
        token_limit: positive_or(filled(env("OPENAI_API_TOKEN_LIMIT"@)), 4096) as i64,
        recap_reserve: positive_or(
            filled(env("OPENAI_API_CHAT_HISTORIES_RECAP_TOKEN_LIMIT"@)),
            2000,
        ) as i64,
        summary_language: or_text(
            filled(env("CHAT_HISTORIES_SUMMARIZATION_LANGUAGE"@)),
            "Simplified Chinese"@,
        ),
        force_check_failure: switched_on(env("OPENAI_FORCE_CHECK_MODEL_FAILURE"@)),
        force_condensed_primary_failure: switched_on(
            env("OPENAI_FORCE_CONDENSED_PRIMARY_FAILURE_FOR_TEST"@),
        ),
        verbose_payload_logs: switched_on(env("OPENAI_VERBOSE_PAYLOAD_LOGS"@)),
    }
}

/// The configuration that `env` gives, with what is known of the endpoint's shape; the
/// first fault in the order of the checks refuses it.
pub open spec fn configured(env: Environment, shape: Option<UrlShape>) -> Result<
    AppModel,
    ConfigError,
> {
    let recap = recap_of(env);
    let user_prompt = filled(env("SARCASTIC_CONDENSED_USER_PROMPT"@));
    if filled(env("TELEGRAM_BOT_TOKEN"@)) is None {
        Err(ConfigError::BotTokenMissing)
    } else if endpoint_fault(shape) is Some {
        Err(endpoint_fault(shape)->0)
    } else if port_of(filled(env("REDIS_PORT"@))) is Err {
        Err(port_of(filled(env("REDIS_PORT"@)))->Err_0)
    } else if key_of(env) is Err {
        Err(key_of(env)->Err_0)
    } else if recap.token_limit - recap.recap_reserve <= 0 {
        Err(ConfigError::TokenBudget)
    } else if prompt_fault(user_prompt) is Some {
        Err(ConfigError::Prompt(prompt_fault(user_prompt)->0))
    } else if health_port_of(filled(env("HEALTH_HTTP_PORT"@))) is Err {
        Err(health_port_of(filled(env("HEALTH_HTTP_PORT"@)))->Err_0)
    } else {
        Ok(
            AppModel {
                locale: locale_of(env("INSIGHTS_LANG"@)),
                telegram: telegram_of(env),
                db: db_of(env),
                redis: redis_of(env, port_of(filled(env("REDIS_PORT"@)))->Ok_0),
                openai: OpenAiModel {
                    api_key: key_of(env)->Ok_0,
                    api_base: api_base(filled(env("OPENAI_API_HOST"@))),
                    model: recap.primary_model,
                    token_limit: narrowed(recap.token_limit as int),
                    recap_token_limit: narrowed(recap.recap_reserve as int),
                },
                recap_openai: recap,
                condensed_prompts: PromptsModel {
                    system_prompt: filled(env("SARCASTIC_CONDENSED_SYSTEM_PROMPT"@)),
                    user_prompt,
                },
                manual_recap_rate_per_seconds: nonnegative_or_zero(
                    filled(env("HARD_LIMIT_MANUAL_RECAP_RATE_PER_SECONDS"@)),
                ) as i64,
                timezone_shift_seconds: integer_or(
                    filled(env("TIMEZONE_SHIFT_SECONDS"@)),
                    0,
                ) as i64,
                auto_recap_test: AutoRecapTestConfig {
                    enabled: switched_on(env("AUTO_RECAP_TEST_ENABLED"@)),
                    chat_id: integer_or(filled(env("AUTO_RECAP_TEST_CHAT_ID"@)), 0) as i64,
                },
                health_http_port: health_port_of(filled(env("HEALTH_HTTP_PORT"@)))->Ok_0,
                log_level: or_text(filled(env("LOG_LEVEL"@)), "info"@),
                log_file_path: filled(env("LOG_FILE_PATH"@)),
                locales_dir: or_text(filled(env("LOCALES_DIR"@)), "./locales"@),
            },
        )
    }
}

/// The model of a configuration result.
pub open spec fn result_model(r: Result<AppConfig, ConfigError>) -> Result<AppModel, ConfigError> {
    match r {
        Ok(config) => Ok(config@),
        Err(error) => Err(error),
    }
}

fn read_db<F: Fn(&str) -> Option<String>>(lookup: &F) -> (r: DbConfig)
    requires
        forall|k: &str| lookup.requires((k,)),
    ensures
        forall|env: Environment| #[trigger] answers(*lookup, env) ==> r@ == db_of(env),
{
    let postgres_url: Option<String> = match optional_non_empty(lookup, "DATABASE_URL") {
        Some(url) => Some(url),
        None => optional_non_empty(lookup, "DB_CONNECTION_STR"),
    };
    let sqlite_file: Option<String> = match optional_non_empty(lookup, "SQLITE_PATH") {
        Some(path) => Some(path),
        None => if postgres_url.is_none() {
            Some("data/dev.db".to_owned())
        } else {
            None
        },
    };
    DbConfig { postgres_url, sqlite_file }
}

fn read_redis<F: Fn(&str) -> Option<String>>(lookup: &F, port: u16) -> (r: RedisConfig)
    requires
        forall|k: &str| lookup.requires((k,)),
    ensures
        forall|env: Environment| #[trigger] answers(*lookup, env) ==> r@ == redis_of(env, port),
{
    RedisConfig {
        host: or_default(optional_non_empty(lookup, "REDIS_HOST"), "localhost"),
        port,
        tls_enabled: bool_switch(lookup, "REDIS_TLS_ENABLED"),
        username: optional_non_empty(lookup, "REDIS_USERNAME"),
        password: optional_non_empty(lookup, "REDIS_PASSWORD"),
        database: nonnegative_u32_or_zero(optional_non_empty(lookup, "REDIS_DB")),
        client_cache_enabled: bool_switch(lookup, "REDIS_CLIENT_CACHE_ENABLED"),
    }
}

fn read_key<F: Fn(&str) -> Option<String>>(lookup: &F) -> (r: Result<String, ConfigError>)
    requires
        forall|k: &str| lookup.requires((k,)),
    ensures
        forall|env: Environment| #[trigger]
            answers(*lookup, env) ==> key_of(env) == match r {
                Ok(key) => Ok::<Seq<char>, ConfigError>(key@),
                Err(error) => Err(error),
            },
{
    match lookup("OPENAI_API_SECRET") {
        Some(secret) => if text::blank(secret.as_str()) {
            Err(ConfigError::ApiSecretMissing)
        } else {
            Ok(secret)
        },
        None => match optional_non_empty(lookup, "OPENAI_API_KEY") {
            Some(key) => Ok(key),
            None => Err(ConfigError::ApiKeyMissing),
        },
    }
}

fn read_recap<F: Fn(&str) -> Option<String>>(lookup: &F) -> (r: RecapOpenAiConfig)
    requires
        forall|k: &str| lookup.requires((k,)),
    ensures
        r.token_limit > 0,
        r.recap_reserve > 0,
        forall|env: Environment| #[trigger] answers(*lookup, env) ==> r@ == recap_of(env),
{
    let primary_model: String = or_default(
        optional_non_empty(lookup, "OPENAI_API_MODEL_NAME"),
        "gpt-3.5-turbo",
    );
    let primary_backups: Vec<String> = normalized_backups(
        optional_non_empty(lookup, "OPENAI_API_MODEL_NAME_backup"),
        primary_model.as_str(),
    );
    let condensed_model: String = or_default(
        optional_non_empty(lookup, "SARCASTIC_CONDENSED_MODEL_NAME"),
        primary_model.as_str(),
    );
    let condensed_backups: Vec<String> = normalized_backups(
        optional_non_empty(lookup, "SARCASTIC_CONDENSED_MODEL_NAME_backup"),
        condensed_model.as_str(),
    );
    let check_model: Option<String> = optional_non_empty(lookup, "CHECK_MODEL");
    let check_backups: Vec<String> = match &check_model {
        Some(primary) => normalized_backups(
            optional_non_empty(lookup, "CHECK_MODEL_backup"),
            primary.as_str(),
        ),
        None => {
            let none: Vec<String> = Vec::new();
            assert(text::texts(none@) =~= Seq::<Seq<char>>::empty());
            none
        },
    };
    RecapOpenAiConfig {
        primary_model,
        primary_backups,
        condensed_model,
        condensed_backups,
        check_model,
        check_backups,
        token_limit: positive_i64_or_default(
            optional_non_empty(lookup, "OPENAI_API_TOKEN_LIMIT"),
            4096,
        ),
        recap_reserve: positive_i64_or_default(
            optional_non_empty(lookup, "OPENAI_API_CHAT_HISTORIES_RECAP_TOKEN_LIMIT"),
            2000,
        ),
        summary_language: or_default(
            optional_non_empty(lookup, "CHAT_HISTORIES_SUMMARIZATION_LANGUAGE"),
            "Simplified Chinese",
        ),
        force_check_failure: bool_switch(lookup, "OPENAI_FORCE_CHECK_MODEL_FAILURE"),
        force_condensed_primary_failure: bool_switch(
            lookup,
            "OPENAI_FORCE_CONDENSED_PRIMARY_FAILURE_FOR_TEST",
        ),
        verbose_payload_logs: bool_switch(lookup, "OPENAI_VERBOSE_PAYLOAD_LOGS"),
    }
}

fn endpoint<F: Fn(&str) -> Option<String>>(lookup: &F) -> (out: String)
    requires
        forall|k: &str| lookup.requires((k,)),
    ensures
        forall|env: Environment| #[trigger]
            answers(*lookup, env) ==> out@ == endpoint_of(
                filled(env("TELEGRAM_BOT_API_ENDPOINT"@)),
            ),
{
    let chosen: String = or_default(
        optional_non_empty(lookup, "TELEGRAM_BOT_API_ENDPOINT"),
        OFFICIAL_TELEGRAM_API_ENDPOINT,
    );
    text::trim_end_of(chosen.as_str(), CharClass::Exactly('/'))
}

impl AppConfig {
    /// The configuration that `lookup` gives.
    pub fn from_lookup<F: Fn(&str) -> Option<String>>(lookup: F) -> (r: Result<Self, ConfigError>)
        requires
            forall|k: &str| lookup.requires((k,)),
        ensures
            forall|env: Environment| #[trigger]
                answers(lookup, env) ==> result_model(r) == configured(
                    env,
                    shape_of(
                        url_parts(endpoint_of(filled(env("TELEGRAM_BOT_API_ENDPOINT"@)))),
                    ),
                ),
    {
        let shape: Option<UrlShape> = url_shape(endpoint(&lookup).as_str());
        AppConfig::from_lookup_with_shape(lookup, shape)
    }

    /// The configuration that `lookup` gives, where its endpoint has the shape `shape`.
    pub fn from_lookup_with_shape<F: Fn(&str) -> Option<String>>(
        lookup: F,
        shape: Option<UrlShape>,
    ) -> (r: Result<Self, ConfigError>)
        requires
            forall|k: &str| lookup.requires((k,)),
        ensures
            forall|env: Environment| #[trigger]
                answers(lookup, env) ==> result_model(r) == configured(env, shape),
    {
        let locale: Locale = Locale::from_lookup(&lookup);
        let bot_token: String = match optional_non_empty(&lookup, "TELEGRAM_BOT_TOKEN") {
            Some(token) => token,
            None => {
                return Err(ConfigError::BotTokenMissing);
            },
        };
        match check_endpoint(shape) {
            Some(error) => {
                return Err(error);
            },
            None => {},
        }
        let telegram = TelegramConfig {
            bot_token,
            api_endpoint: endpoint(&lookup),
            webhook_url: optional_non_empty(&lookup, "TELEGRAM_BOT_WEBHOOK_URL"),
            webhook_port: webhook_port(optional_non_empty(&lookup, "TELEGRAM_BOT_WEBHOOK_PORT")),
        };
        let db: DbConfig = read_db(&lookup);
        let redis: RedisConfig = match redis_port(optional_non_empty(&lookup, "REDIS_PORT")) {
            Ok(port) => read_redis(&lookup, port),
            Err(error) => {
                return Err(error);
            },
        };
        let api_key: String = match read_key(&lookup) {
            Ok(key) => key,
            Err(error) => {
                return Err(error);
            },
        };
        let recap_openai: RecapOpenAiConfig = read_recap(&lookup);
        if recap_openai.token_limit - recap_openai.recap_reserve <= 0 {
            return Err(ConfigError::TokenBudget);
        }
        let user_prompt: Option<String> = optional_non_empty(
            &lookup,
            "SARCASTIC_CONDENSED_USER_PROMPT",
        );
        match &user_prompt {
            Some(found) => match template::validate_template(found.as_str()) {
                Ok(_) => {},
                Err(fault) => {
                    return Err(ConfigError::Prompt(fault));
                },
            },
            None => {},
        }
        let health_http_port: u16 = match health_port(
            optional_non_empty(&lookup, "HEALTH_HTTP_PORT"),
        ) {
            Ok(port) => port,
            Err(error) => {
                return Err(error);
            },
        };
        let condensed_prompts = CondensedPromptConfig {
            system_prompt: optional_non_empty(&lookup, "SARCASTIC_CONDENSED_SYSTEM_PROMPT"),
            user_prompt,
        };
        let openai = OpenAiConfig {
            api_key,
            api_base: openai_api_base(optional_non_empty(&lookup, "OPENAI_API_HOST")),
            model: recap_openai.primary_model.clone(),
            token_limit: narrow(recap_openai.token_limit),
            recap_token_limit: narrow(recap_openai.recap_reserve),
        };
        let config = AppConfig {
            locale,
            telegram,
            db,
            redis,
            openai,
            recap_openai,
            condensed_prompts,
            manual_recap_rate_per_seconds: nonnegative_i64_or_zero(
                optional_non_empty(&lookup, "HARD_LIMIT_MANUAL_RECAP_RATE_PER_SECONDS"),
            ),
            timezone_shift_seconds: i64_or_zero(
                optional_non_empty(&lookup, "TIMEZONE_SHIFT_SECONDS"),
            ),
            auto_recap_test: AutoRecapTestConfig {
                enabled: bool_switch(&lookup, "AUTO_RECAP_TEST_ENABLED"),
                chat_id: i64_or_zero(optional_non_empty(&lookup, "AUTO_RECAP_TEST_CHAT_ID")),
            },
            health_http_port,
            log_level: or_default(optional_non_empty(&lookup, "LOG_LEVEL"), "info"),
            log_file_path: optional_non_empty(&lookup, "LOG_FILE_PATH"),
            locales_dir: or_default(optional_non_empty(&lookup, "LOCALES_DIR"), "./locales"),
        };
        proof {
            assert forall|env: Environment| #[trigger] answers(lookup, env) implies Ok::<
                AppModel,
                ConfigError,
            >(config@) == configured(env, shape) by {
                assert(config@.telegram =~= telegram_of(env));
                assert(config@ =~= configured(env, shape)->Ok_0);
            }
        }
        Ok(config)
    }
}

/// What every accepted configuration guarantees: a positive token budget, a Redis port
/// and a health port in range, an endpoint without trailing slash, and no check backups
/// without a check model.
pub proof fn lemma_accepted_configuration(env: Environment, shape: Option<UrlShape>)
    requires
        configured(env, shape) is Ok,
    ensures
        ({
            let config = configured(env, shape)->Ok_0;
            &&& config.recap_openai.token_limit > config.recap_openai.recap_reserve
            &&& config.recap_openai.recap_reserve > 0
            &&& 1 <= config.redis.port <= 65535
            &&& 1 <= config.health_http_port <= 65535
            &&& config.telegram.api_endpoint.len() > 0 ==> config.telegram.api_endpoint.last()
                != '/'
            &&& config.recap_openai.check_model is None ==> config.recap_openai.check_backups.len()
                == 0
            &&& config.manual_recap_rate_per_seconds >= 0
            &&& config.db.postgres_url is Some || config.db.sqlite_file is Some
        }),
{
    let chosen = or_text(
        filled(env("TELEGRAM_BOT_API_ENDPOINT"@)),
        OFFICIAL_TELEGRAM_API_ENDPOINT@,
    );
    lemma_no_trailing(chosen, '/');
}

proof fn lemma_no_trailing(s: Seq<char>, c: char)
    ensures
        ({
            let cut = text::trim_end_class(s, CharClass::Exactly(c));
            cut.len() > 0 ==> cut.last() != c
        }),
    decreases s.len(),
{
    if s.len() > 0 && s.last() == c {
        lemma_no_trailing(s.drop_last(), c);
    }
}

} // verus!
