//! Reading columns and making a database ready.

use insights_bot::config::DbConfig;
use insights_bot::db::codec::{
    bool_at, i64_at, nullable_text_at, parse_bool, parse_i64, text_at, Cell, CodecError,
};
use insights_bot::db::connect::{
    already_applied, connect_from_env_step, create_postgres_database_plan, create_statement,
    is_missing_database, migration_statements, plan_database_with, sqlite_url, Cause,
    ConnectFailure, ConnectStep, CreationError, PostgresAttempt, CHAT_HISTORIES_ID_TYPE_QUERY,
};
use insights_bot::db::{feature_flags, subscribers, Database};

#[test]
fn both_engines_boolean_renderings_are_accepted() {
    for raw in ["true", "TRUE", "True", "t", "T", "1", " true ", "\t1\n"] {
        assert!(
            parse_bool(4, raw).unwrap_or_else(|error| panic!("{raw:?}: {error:?}")),
            "{raw:?} must read as true"
        );
    }
    for raw in ["false", "FALSE", "False", "f", "F", "0", " false ", "\t0\n"] {
        assert!(
            !parse_bool(4, raw).unwrap_or_else(|error| panic!("{raw:?}: {error:?}")),
            "{raw:?} must read as false"
        );
    }
}

/// A value no fixed message could contain by coincidence.
const SENTINEL: &str = "sentinel-stored-value-must-not-leak";

#[test]
fn a_non_boolean_rendering_is_rejected_without_quoting_it() {
    const EXPECTED: &str = "recap persistence: column 4 is not a boolean";
    for raw in ["", "yes", "no", "2", "-1", "null", "TRUEISH", SENTINEL] {
        let error =
            parse_bool(4, raw).expect_err("only the two engines' spellings are accepted").message();
        assert_eq!(error, EXPECTED, "the message must not vary with the input");
    }
    assert!(
        !parse_bool(4, SENTINEL).expect_err("rejected").message().contains("sentinel"),
        "the stored value must never reach the message"
    );
}

#[test]
fn signed_64_bit_extremes_survive_the_text_path() {
    for value in [
        i64::MIN,
        i64::MIN + 1,
        i64::from(i32::MIN) - 1,
        -1_001_234_567_890,
        -1,
        0,
        1,
        1_700_000_000_000,
        i64::from(i32::MAX) + 1,
        i64::MAX - 1,
        i64::MAX,
    ] {
        assert_eq!(
            parse_i64(2, &value.to_string()).unwrap_or_else(|error| panic!("{value}: {error:?}")),
            value
        );
    }
    assert_eq!(parse_i64(2, "  -42\n").expect("trimmed"), -42);
}

#[test]
fn a_malformed_integer_is_rejected_without_quoting_the_value() {
    const EXPECTED: &str = "recap persistence: column 2 is not a 64-bit integer";
    for raw in [
        "",
        "abc",
        "1.5",
        "0x10",
        "9223372036854775808",
        "-9223372036854775809",
        "1 2",
        SENTINEL,
    ] {
        let error = parse_i64(2, raw).expect_err("only a 64-bit integer is accepted").message();
        assert_eq!(error, EXPECTED, "the message must not vary with the input");
    }
    assert!(
        !parse_i64(2, SENTINEL).expect_err("rejected").message().contains("sentinel"),
        "the stored value must never reach the message"
    );
}

#[test]
fn columns_report_what_is_wrong_with_them() {
    let row = vec![Cell::Null, Cell::Text("7".to_owned()), Cell::Unreadable];
    assert_eq!(nullable_text_at(&row, 0), Ok(None));
    assert_eq!(text_at(&row, 0), Err(CodecError::UnexpectedNull { index: 0 }));
    assert_eq!(i64_at(&row, 1), Ok(7));
    assert_eq!(bool_at(&row, 1), Err(CodecError::NotBoolean { index: 1 }));
    assert_eq!(
        text_at(&row, 2).expect_err("unreadable").message(),
        "recap persistence: column 2 did not decode as text"
    );
    assert_eq!(
        i64_at(&row, 3).expect_err("missing").message(),
        "recap persistence: column 3 is missing from the result"
    );
    assert_eq!(
        bool_at(&row, 0).expect_err("null").message(),
        "recap persistence: column 0 was NULL but is declared NOT NULL"
    );
}

fn cells(values: &[&str]) -> Vec<Cell> {
    values.iter().map(|value| Cell::Text((*value).to_owned())).collect()
}

#[test]
fn rows_decode_in_column_order_and_report_the_first_fault() {
    let found = subscribers::decode(&cells(&["id", "-5", "6", "7", "8"])).expect("decodes");
    assert_eq!((found.chat_id, found.user_id, found.created_at), (-5, 6, 7));
    assert_eq!(
        subscribers::decode(&cells(&["id", "x", "y", "7", "8"])),
        Err(CodecError::NotInteger { index: 1 })
    );
    assert_eq!(
        subscribers::decode(&cells(&["id", "1"])),
        Err(CodecError::Missing { index: 2 })
    );
    let flags = feature_flags::decode(&cells(&["id", "1", "group", "T", "t", "en", "1", "2"]))
        .expect("decodes");
    assert!(flags.feature_chat_histories_recap);
}

#[test]
fn parity_tables_are_accepted_alongside_the_rust_owned_integer_key() {
    const TABLES: [&str; 8] = [
        "telegram_chat_feature_flags",
        "telegram_chat_recaps_options",
        "telegram_chat_auto_recaps_subscribers",
        "log_chat_histories_recaps",
        "feedback_chat_histories_recaps_reactions",
        "feedback_summarizations_reactions",
        "sent_messages",
        "metric_open_ai_chat_completion_token_usages",
    ];
    assert_eq!(TABLES.len(), 8);
    Database::ensure_supported_chat_histories_id(Some("bigint"))
        .expect("a database keyed by an integer must start");
}

#[test]
fn every_integer_chat_histories_key_is_accepted() {
    for data_type in ["smallint", "integer", "bigint", "BIGINT", "Integer"] {
        Database::ensure_supported_chat_histories_id(Some(data_type))
            .unwrap_or_else(|error| panic!("{data_type} must be accepted: {error:?}"));
    }
}

#[test]
fn a_database_without_chat_histories_is_accepted() {
    Database::ensure_supported_chat_histories_id(None)
        .expect("a fresh database gets chat_histories from the migrations");
}

#[test]
fn a_uuid_chat_histories_key_is_still_rejected() {
    let error = Database::ensure_supported_chat_histories_id(Some("uuid"))
        .expect_err("a UUID key cannot be served");
    assert!(error.message().contains("chat_histories.id is not an integer column"));
}

#[test]
fn other_non_integer_chat_histories_keys_are_rejected() {
    for data_type in ["uuid", "text", "character varying", "numeric", "bytea"] {
        Database::ensure_supported_chat_histories_id(Some(data_type))
            .expect_err("only integral keys are supported");
    }
}

#[test]
fn an_incompatible_schema_never_selects_sqlite_even_when_one_is_configured() {
    let incompatible =
        Database::ensure_supported_chat_histories_id(Some("uuid")).expect_err("uuid is rejected");
    assert!(Database::is_incompatible_schema(&incompatible));
    assert!(!Database::should_fall_back_to_sqlite(&incompatible, true));
    assert!(!Database::should_fall_back_to_sqlite(&incompatible, false));
}

#[test]
fn added_context_cannot_disarm_the_incompatibility_marker() {
    let wrapped = Database::ensure_supported_chat_histories_id(Some("uuid"))
        .expect_err("uuid is rejected")
        .context("connecting to Postgres")
        .context("bootstrapping the database");
    assert!(Database::is_incompatible_schema(&wrapped));
    assert!(!Database::should_fall_back_to_sqlite(&wrapped, true));
    assert_eq!(wrapped.message(), "bootstrapping the database");
}

#[test]
fn an_ordinary_connectivity_failure_still_selects_sqlite() {
    let unreachable = ConnectFailure::new(Cause::Other("connection refused".to_owned()))
        .context("error communicating with database");
    assert!(!Database::is_incompatible_schema(&unreachable));
    assert!(Database::should_fall_back_to_sqlite(&unreachable, true));
    assert!(
        !Database::should_fall_back_to_sqlite(&unreachable, false),
        "with no SQLite configured there is nothing to fall back to"
    );
}

#[test]
fn the_chat_histories_probe_follows_the_effective_schema() {
    let query = CHAT_HISTORIES_ID_TYPE_QUERY;
    assert!(
        query.contains("table_schema = current_schema()"),
        "the probe must inspect the schema search_path resolves: {query}"
    );
    assert!(
        !query.contains("'public'"),
        "hard-coding public would inspect a different table than the migrator writes: {query}"
    );
    assert!(query.contains("table_name = 'chat_histories'"));
    assert!(query.contains("column_name = 'id'"));
}

#[test]
fn the_rejection_message_is_fixed_and_quotes_nothing_from_the_database() {
    let first = Database::ensure_supported_chat_histories_id(Some("uuid"))
        .expect_err("uuid is rejected")
        .message();
    let second = Database::ensure_supported_chat_histories_id(Some("bytea"))
        .expect_err("bytea is rejected")
        .message();
    assert_eq!(first, second, "the message must not vary with the input");
    for leaked in ["uuid", "bytea", "password", "postgres://"] {
        assert!(!first.contains(leaked), "the rejection message leaked {leaked}: {first}");
    }
}

#[test]
fn sqlite_addresses_create_the_file() {
    assert_eq!(sqlite_url("data.db"), "sqlite://data.db?mode=rwc");
    assert_eq!(sqlite_url("sqlite://data.db"), "sqlite://data.db?mode=rwc");
    assert_eq!(sqlite_url("sqlite://data.db?mode=ro"), "sqlite://data.db?mode=ro");
}

fn config(postgres: Option<&str>, sqlite: Option<&str>) -> DbConfig {
    DbConfig {
        postgres_url: postgres.map(str::to_owned),
        sqlite_file: sqlite.map(str::to_owned),
    }
}

#[test]
fn postgres_comes_first_and_sqlite_answers_for_it() {
    let both = config(Some("postgres://h/d"), Some("f.db"));
    assert_eq!(
        connect_from_env_step(&both, PostgresAttempt::NotTried),
        ConnectStep::Postgres { url: "postgres://h/d".to_owned() }
    );
    assert_eq!(
        connect_from_env_step(&both, PostgresAttempt::Connected),
        ConnectStep::UsePostgres
    );
    let refused = ConnectFailure::new(Cause::Other("refused".to_owned()));
    assert_eq!(
        connect_from_env_step(&both, PostgresAttempt::Failed(refused)),
        ConnectStep::Sqlite { url: "sqlite://f.db?mode=rwc".to_owned() }
    );
    let incompatible = ConnectFailure::new(Cause::IncompatiblePostgresSchema);
    assert_eq!(
        connect_from_env_step(&both, PostgresAttempt::Failed(incompatible)),
        ConnectStep::Fail(ConnectFailure::new(Cause::IncompatiblePostgresSchema))
    );
    match connect_from_env_step(&config(None, None), PostgresAttempt::NotTried) {
        ConnectStep::Fail(failure) => assert!(failure.message().contains("no database configured")),
        other => panic!("{other:?}"),
    }
}

#[test]
fn a_schema_that_cannot_be_served_is_named_in_full() {
    let error = Database::ensure_supported_chat_histories_id(Some("uuid")).expect_err("refused");
    assert_eq!(
        error.message(),
        "unsupported PostgreSQL schema: chat_histories.id is not an integer column. This service owns chat_histories with an integer primary key; a UUID-keyed Go chat_histories table must be migrated before starting this service."
    );
}

#[test]
fn a_missing_database_is_created_under_a_plain_name() {
    assert!(is_missing_database("database \"x\" does not exist"));
    assert!(!is_missing_database("connection refused"));
    let plan = create_postgres_database_plan("postgres://user@host:5432/insights?sslmode=disable")
        .expect("a plan");
    assert_eq!(plan.name, "insights");
    assert_eq!(plan.admin_url, "postgres://user@host:5432/postgres?sslmode=disable");
    assert_eq!(create_statement("in_1"), Ok("CREATE DATABASE \"in_1\"".to_owned()));
    assert_eq!(create_statement("a-b").expect_err("refused").message(), "invalid database name: a-b");
    assert_eq!(create_postgres_database_plan("not a url"), Err(CreationError::InvalidUrl));
    let long = format!("postgres://host/{}", "x".repeat(20_000_000));
    let planned = create_postgres_database_plan(&long).expect("a plan");
    assert_eq!(planned.admin_url, "postgres://host/postgres");
    assert_eq!(planned.name.len(), 20_000_000);
    assert_eq!(
        plan_database_with(Some("///".to_owned()), Some("x".to_owned())),
        Err(CreationError::NoName)
    );
}

#[test]
fn migrations_split_into_statements_without_comments() {
    let sql = "-- first\nCREATE TABLE a (id INT);\n\n  -- only a comment\n;\nALTER TABLE a\n  ADD b INT;\n";
    assert_eq!(
        migration_statements(sql),
        vec!["CREATE TABLE a (id INT)".to_owned(), "ALTER TABLE a\n  ADD b INT".to_owned()]
    );
    assert!(already_applied("duplicate column name: b"));
    assert!(already_applied("relation already exists"));
    assert!(!already_applied("syntax error"));
}
