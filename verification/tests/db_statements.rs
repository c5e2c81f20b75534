//! The statements of the recap tables.

use insights_bot::db::models::{AutoRecapSendMode, FeedbackReaction, ReactionType};
use insights_bot::db::statement::{SqlValue, Statement};
use insights_bot::db::{
    chat_cleanup, chat_history, feature_flags, feedback, migration, models, recap_logs, recap_options,
    sent_messages, subscribers, usage_metrics, DbBackend,
};

/// The highest `$n` placeholder that a statement uses.
fn placeholder_count(sql: &str) -> usize {
    (1..=32).take_while(|index| sql.contains(&format!("${index}"))).count()
}

#[test]
fn feature_flags_the_postgres_insert_casts_the_generated_identifier_to_uuid() {
    let sql = feature_flags::insert_statement(DbBackend::Postgres);
    assert_eq!(sql, feature_flags::INSERT_POSTGRES);
    assert!(
        sql.contains("VALUES (CAST($1 AS UUID), $2, $3, $4, $5, $6, $7, $8)"),
        "the PostgreSQL id column is UUID: {sql}"
    );
    assert_eq!(placeholder_count(sql), 8);
}

#[test]
fn feature_flags_the_sqlite_insert_binds_the_identifier_directly() {
    let sql = feature_flags::insert_statement(DbBackend::Sqlite);
    assert_eq!(sql, feature_flags::INSERT_SQLITE);
    assert!(!sql.contains("UUID"), "the SQLite id column is TEXT: {sql}");
    assert!(sql.contains("VALUES ($1, $2, $3, $4, $5, $6, $7, $8)"));
    assert_eq!(placeholder_count(sql), 8);
}

#[test]
fn feature_flags_both_inserts_name_the_same_columns_in_the_same_order() {
    const COLUMNS: &str = "(id, chat_id, chat_type, chat_title, feature_chat_histories_recap,\n         feature_language, created_at, updated_at)";
    for sql in [feature_flags::INSERT_POSTGRES, feature_flags::INSERT_SQLITE] {
        assert!(sql.contains(COLUMNS), "column order drifted: {sql}");
    }
}

#[test]
fn recap_logs_the_postgres_insert_casts_the_generated_identifier_to_uuid() {
    let sql = recap_logs::insert_statement(DbBackend::Postgres);
    assert_eq!(sql, recap_logs::INSERT_POSTGRES);
    assert!(
        sql.contains("VALUES (CAST($1 AS UUID), $2, $3, $4, $5, $6, $7, $8, $9, $10, $11, $12)"),
        "the PostgreSQL id column is UUID: {sql}"
    );
    assert_eq!(placeholder_count(sql), 12);
}

#[test]
fn recap_logs_the_sqlite_insert_binds_the_identifier_directly() {
    let sql = recap_logs::insert_statement(DbBackend::Sqlite);
    assert_eq!(sql, recap_logs::INSERT_SQLITE);
    assert!(!sql.contains("UUID"), "the SQLite id column is TEXT: {sql}");
    assert!(sql.contains("VALUES ($1, $2, $3, $4, $5, $6, $7, $8, $9, $10, $11, $12)"));
    assert_eq!(placeholder_count(sql), 12);
}

#[test]
fn recap_logs_both_inserts_name_the_same_columns_in_the_same_order() {
    const COLUMNS: &str = "(id, chat_id, recap_inputs, recap_outputs, from_platform, prompt_token_usage,\n         completion_token_usage, total_token_usage, recap_type, model_name,\n         created_at, updated_at)";
    for sql in [recap_logs::INSERT_POSTGRES, recap_logs::INSERT_SQLITE] {
        assert!(sql.contains(COLUMNS), "column order drifted: {sql}");
    }
}

#[test]
fn recap_options_the_postgres_insert_casts_the_generated_identifier_to_uuid() {
    let sql = recap_options::insert_statement(DbBackend::Postgres);
    assert_eq!(sql, recap_options::INSERT_POSTGRES);
    assert!(
        sql.contains("VALUES (CAST($1 AS UUID), $2, $3, $4, $5, $6, $7, $8)"),
        "the PostgreSQL id column is UUID: {sql}"
    );
    assert_eq!(placeholder_count(sql), 8);
}

#[test]
fn recap_options_the_sqlite_insert_binds_the_identifier_directly() {
    let sql = recap_options::insert_statement(DbBackend::Sqlite);
    assert_eq!(sql, recap_options::INSERT_SQLITE);
    assert!(!sql.contains("UUID"), "the SQLite id column is TEXT: {sql}");
    assert!(sql.contains("VALUES ($1, $2, $3, $4, $5, $6, $7, $8)"));
    assert_eq!(placeholder_count(sql), 8);
}

#[test]
fn recap_options_both_inserts_name_the_same_columns_in_the_same_order() {
    const COLUMNS: &str = "(id, chat_id, auto_recap_send_mode, manual_recap_rate_per_seconds,\n         auto_recap_rates_per_day, pin_auto_recap_message, created_at, updated_at)";
    for sql in [recap_options::INSERT_POSTGRES, recap_options::INSERT_SQLITE] {
        assert!(sql.contains(COLUMNS), "column order drifted: {sql}");
    }
}

#[test]
fn sent_messages_the_postgres_insert_casts_the_generated_identifier_to_uuid() {
    let sql = sent_messages::insert_statement(DbBackend::Postgres);
    assert_eq!(sql, sent_messages::INSERT_POSTGRES);
    assert!(
        sql.contains("VALUES (CAST($1 AS UUID), $2, $3, $4, $5, $6, $7, $8, $9)"),
        "the PostgreSQL id column is UUID: {sql}"
    );
    assert_eq!(placeholder_count(sql), 9);
}

#[test]
fn sent_messages_the_sqlite_insert_binds_the_identifier_directly() {
    let sql = sent_messages::insert_statement(DbBackend::Sqlite);
    assert_eq!(sql, sent_messages::INSERT_SQLITE);
    assert!(!sql.contains("UUID"), "the SQLite id column is TEXT: {sql}");
    assert!(sql.contains("VALUES ($1, $2, $3, $4, $5, $6, $7, $8, $9)"));
    assert_eq!(placeholder_count(sql), 9);
}

#[test]
fn sent_messages_both_inserts_name_the_same_columns_in_the_same_order() {
    const COLUMNS: &str = "(id, chat_id, message_id, text, is_pinned, from_platform, message_type,\n         created_at, updated_at)";
    for sql in [sent_messages::INSERT_POSTGRES, sent_messages::INSERT_SQLITE] {
        assert!(sql.contains(COLUMNS), "column order drifted: {sql}");
    }
}

#[test]
fn subscribers_the_postgres_insert_casts_the_generated_identifier_to_uuid() {
    let sql = subscribers::insert_statement(DbBackend::Postgres);
    assert_eq!(sql, subscribers::INSERT_POSTGRES);
    assert!(
        sql.contains("VALUES (CAST($1 AS UUID), $2, $3, $4, $5)"),
        "the PostgreSQL id column is UUID: {sql}"
    );
    assert_eq!(placeholder_count(sql), 5);
}

#[test]
fn subscribers_the_sqlite_insert_binds_the_identifier_directly() {
    let sql = subscribers::insert_statement(DbBackend::Sqlite);
    assert_eq!(sql, subscribers::INSERT_SQLITE);
    assert!(!sql.contains("UUID"), "the SQLite id column is TEXT: {sql}");
    assert!(sql.contains("VALUES ($1, $2, $3, $4, $5)"));
    assert_eq!(placeholder_count(sql), 5);
}

#[test]
fn subscribers_both_inserts_name_the_same_columns_in_the_same_order() {
    const COLUMNS: &str = "(id, chat_id, user_id, created_at, updated_at)";
    for sql in [subscribers::INSERT_POSTGRES, subscribers::INSERT_SQLITE] {
        assert!(sql.contains(COLUMNS), "column order drifted: {sql}");
    }
}

#[test]
fn usage_metrics_the_postgres_insert_casts_the_generated_identifier_to_uuid() {
    let sql = usage_metrics::insert_statement(DbBackend::Postgres);
    assert_eq!(sql, usage_metrics::INSERT_POSTGRES);
    assert!(
        sql.contains("VALUES (CAST($1 AS UUID), $2, $3, $4, $5, $6, $7, $8, $9)"),
        "the PostgreSQL id column is UUID: {sql}"
    );
    assert_eq!(placeholder_count(sql), 9);
}

#[test]
fn usage_metrics_the_sqlite_insert_binds_the_identifier_directly() {
    let sql = usage_metrics::insert_statement(DbBackend::Sqlite);
    assert_eq!(sql, usage_metrics::INSERT_SQLITE);
    assert!(!sql.contains("UUID"), "the SQLite id column is TEXT: {sql}");
    assert!(sql.contains("VALUES ($1, $2, $3, $4, $5, $6, $7, $8, $9)"));
    assert_eq!(placeholder_count(sql), 9);
}

#[test]
fn usage_metrics_both_inserts_name_the_same_columns_in_the_same_order() {
    const COLUMNS: &str = "(id, prompt_operation, prompt_character_length, prompt_token_usage,\n         completion_character_length, completion_token_usage, total_token_usage,\n         model_name, created_at)";
    for sql in [usage_metrics::INSERT_POSTGRES, usage_metrics::INSERT_SQLITE] {
        assert!(sql.contains(COLUMNS), "column order drifted: {sql}");
    }
    for sql in [usage_metrics::INSERT_POSTGRES, usage_metrics::INSERT_SQLITE] {
        assert!(!sql.contains("updated_at"), "the metric table is append-only: {sql}");
    }
}

#[test]
fn the_insert_permits_a_physical_duplicate() {
    let upper = chat_history::INSERT.to_ascii_uppercase();
    for forbidden in ["ON CONFLICT", "ON DUPLICATE", "OR REPLACE", "OR IGNORE"] {
        assert!(!upper.contains(forbidden), "every call adds a row: {upper}");
    }
    assert_eq!(placeholder_count(chat_history::INSERT), 20);
}

#[test]
fn the_insert_leaves_the_rust_owned_integer_key_to_the_engine() {
    assert!(
        !chat_history::INSERT.contains("(id,"),
        "the primary key generates itself: {}",
        chat_history::INSERT
    );
}

#[test]
fn the_text_update_assigns_only_the_text_and_bounds_nothing() {
    let upper = chat_history::UPDATE_TEXT.to_ascii_uppercase();
    assert!(upper.contains("SET TEXT = $1"));
    assert!(!upper.contains("LIMIT"), "every matching row is rewritten: {upper}");
    let assignments =
        chat_history::UPDATE_TEXT.split(" WHERE ").next().expect("the statement has a WHERE clause");
    assert_eq!(assignments.matches('=').count(), 1, "no other column may be assigned: {upper}");
    assert_eq!(placeholder_count(chat_history::UPDATE_TEXT), 3);
}

#[test]
fn the_window_query_is_strictly_after_the_cutoff_and_ordered_by_message_id() {
    let query = chat_history::find_chatted_after_query();
    let upper = query.to_ascii_uppercase();
    assert!(upper.contains("CHATTED_AT > $2"), "the cutoff itself is left out: {query}");
    assert!(
        !upper.contains("CHATTED_AT >= $2"),
        "an inclusive bound would return one extra row: {query}"
    );
    assert!(upper.contains("ORDER BY MESSAGE_ID ASC"));
    for forbidden in ["GROUP BY", "DISTINCT", "LIMIT"] {
        assert!(!upper.contains(forbidden), "the query adds no {forbidden}: {query}");
    }
    let clauses =
        upper.split("FROM CHAT_HISTORIES").nth(1).expect("the statement names its table").to_owned();
    assert!(!clauses.contains("CREATED_AT"), "the window is measured on chatted_at: {query}");
}

#[test]
fn the_migration_rewrites_the_identifier_and_the_type_and_nothing_else() {
    let assignments = chat_history::MIGRATE_CHAT_ID
        .split(" WHERE ")
        .next()
        .expect("the statement has a WHERE clause");
    assert_eq!(assignments.matches('=').count(), 2, "only chat_id and chat_type move");
    assert!(assignments.contains("chat_id = $1"));
    assert!(assignments.contains("chat_type = $2"));
    assert_eq!(placeholder_count(chat_history::MIGRATE_CHAT_ID), 3);
}

#[test]
fn the_legacy_window_normalizes_both_generations_to_milliseconds() {
    let query = chat_history::messages_since_query();
    let upper = query.to_ascii_uppercase();
    assert_eq!(
        upper
            .matches("CASE WHEN CHATTED_AT <> 0 THEN CHATTED_AT ELSE CREATED_AT * 1000 END")
            .count(),
        2,
        "one normalisation for the filter and one for the order: {query}"
    );
    assert!(upper.contains("END) >= $2"), "the window is inclusive: {query}");
    assert!(upper.contains("END) ASC"), "chronological across both: {query}");
    let clauses =
        upper.split("FROM CHAT_HISTORIES").nth(1).expect("the statement names its table").to_owned();
    assert!(!clauses.contains("CREATED_AT >="));
    assert!(!clauses.contains("CHATTED_AT >="));
    assert!(!clauses.contains("BY CREATED_AT"));
    assert!(!clauses.contains("BY CHATTED_AT"));
}

#[test]
fn the_delete_is_scoped_to_one_chat() {
    assert!(chat_history::DELETE_BY_CHAT_ID.contains("WHERE chat_id = $1"));
    assert_eq!(placeholder_count(chat_history::DELETE_BY_CHAT_ID), 1);
}

#[test]
fn feature_flags_the_executed_list_query_adds_no_ordering_deduplication_or_limit() {
    let query = feature_flags::list_recap_enabled_groups_query();
    let upper = query.to_ascii_uppercase();
    for forbidden in ["ORDER BY", "GROUP BY", "DISTINCT", "LIMIT"] {
        assert!(!upper.contains(forbidden), "the list adds no {forbidden}: {query}");
    }
    assert!(upper.contains("WHERE CHAT_TYPE IN ('GROUP', 'SUPERGROUP')"));
    assert!(upper.contains("FEATURE_CHAT_HISTORIES_RECAP = $1"));
}

#[test]
fn subscribers_the_executed_list_query_adds_no_ordering_deduplication_or_limit() {
    let query = subscribers::list_query();
    let upper = query.to_ascii_uppercase();
    for forbidden in ["ORDER BY", "GROUP BY", "DISTINCT", "LIMIT"] {
        assert!(!upper.contains(forbidden), "the list adds no {forbidden}: {query}");
    }
    assert!(upper.contains("WHERE CHAT_ID = $1"));
}

#[test]
fn the_one_row_delete_matches_the_identifier_as_text_on_both_engines() {
    assert!(
        subscribers::DELETE_ONE_BY_ID.contains("CAST(id AS TEXT) = $1"),
        "a UUID column must be compared as text"
    );
    assert_eq!(placeholder_count(subscribers::DELETE_ONE_BY_ID), 1);
    let upper = subscribers::DELETE_ONE_BY_ID.to_ascii_uppercase();
    assert!(
        !upper.contains("LIMIT"),
        "PostgreSQL rejects DELETE ... LIMIT; the single row comes from the unique id"
    );
    assert!(
        !upper.contains("CHAT_ID") && !upper.contains("USER_ID"),
        "the identifier alone selects the row"
    );
}

#[test]
fn the_latest_pinned_lookup_orders_by_created_at_descending() {
    let query = sent_messages::find_latest_pinned_query();
    let upper = query.to_ascii_uppercase();
    assert!(upper.contains("ORDER BY CREATED_AT DESC"), "the lookup is ordered: {query}");
    assert!(upper.contains("LIMIT 1"), "only the first row is taken");
    assert!(upper.contains("IS_PINNED = $2"));
    assert_eq!(placeholder_count(&query), 2);
}

#[test]
fn the_stored_send_modes_are_the_go_integers() {
    assert_eq!(AutoRecapSendMode::Publicly.as_stored(), 0_i64);
    assert_eq!(AutoRecapSendMode::OnlyPrivateSubscriptions.as_stored(), 1_i64);
    assert_eq!(recap_options::FIRST_ENABLE_RATES_PER_DAY, 4_i64);
}

#[test]
fn an_unknown_stored_send_mode_is_reported_rather_than_coerced() {
    for stored in [
        -1,
        2,
        i64::from(i32::MAX) + 1,
        i64::from(i32::MIN) - 1,
        i64::MAX,
        i64::MIN,
    ] {
        assert_eq!(
            AutoRecapSendMode::from_stored(stored),
            None,
            "{stored} must not be folded onto a known mode"
        );
    }
}

// ---------------------------------------------------------------------------
// Reactions
// ---------------------------------------------------------------------------

fn tables() -> [(feedback::ReactionTable, DbBackend); 4] {
    [
        (feedback::ReactionTable::ChatHistoriesRecaps, DbBackend::Postgres),
        (feedback::ReactionTable::ChatHistoriesRecaps, DbBackend::Sqlite),
        (feedback::ReactionTable::Summarizations, DbBackend::Postgres),
        (feedback::ReactionTable::Summarizations, DbBackend::Sqlite),
    ]
}

fn on(backend: DbBackend) -> Vec<feedback::Statements> {
    tables()
        .into_iter()
        .filter(|(_, found)| *found == backend)
        .map(|(table, found)| table.statements(found))
        .collect()
}

fn every_statement(statements: &feedback::Statements) -> [&'static str; 5] {
    [
        statements.select_by_chat_and_log,
        statements.select_one_typed,
        statements.delete_typed,
        statements.delete_every_type,
        statements.insert,
    ]
}

#[test]
fn the_postgres_inserts_cast_both_identifiers_to_uuid() {
    for statements in on(DbBackend::Postgres) {
        let sql = statements.insert;
        assert!(
            sql.contains("VALUES (CAST($1 AS UUID), $2, CAST($3 AS UUID), $4, $5, $6, $7)"),
            "both id and log_id are UUID on PostgreSQL: {sql}"
        );
        assert_eq!(placeholder_count(sql), 7);
    }
}

#[test]
fn the_sqlite_inserts_bind_both_identifiers_directly() {
    for statements in on(DbBackend::Sqlite) {
        let sql = statements.insert;
        assert!(!sql.contains("UUID"), "both columns are TEXT: {sql}");
        assert!(sql.contains("VALUES ($1, $2, $3, $4, $5, $6, $7)"));
        assert_eq!(placeholder_count(sql), 7);
    }
}

#[test]
fn postgres_compares_log_id_by_casting_the_parameter_not_the_column() {
    for statements in on(DbBackend::Postgres) {
        for sql in every_statement(&statements) {
            assert!(
                !sql.contains("CAST(log_id AS TEXT) ="),
                "the comparison must not cast the column: {sql}"
            );
        }
        for sql in [
            statements.select_by_chat_and_log,
            statements.select_one_typed,
            statements.delete_typed,
            statements.delete_every_type,
        ] {
            assert!(
                sql.contains("log_id = CAST($2 AS UUID)"),
                "the parameter carries the cast: {sql}"
            );
        }
    }
}

#[test]
fn sqlite_compares_log_id_as_the_bound_text() {
    for statements in on(DbBackend::Sqlite) {
        for sql in every_statement(&statements) {
            assert!(!sql.contains("UUID"), "SQLite has no UUID type: {sql}");
        }
        for sql in [
            statements.select_by_chat_and_log,
            statements.select_one_typed,
            statements.delete_typed,
            statements.delete_every_type,
        ] {
            assert!(sql.contains("log_id = $2"), "a plain comparison: {sql}");
        }
    }
}

#[test]
fn every_statement_names_its_own_table_and_nothing_else() {
    for (table, backend) in tables() {
        let (own, other) = match table {
            feedback::ReactionTable::ChatHistoriesRecaps => (
                "feedback_chat_histories_recaps_reactions",
                "feedback_summarizations_reactions",
            ),
            feedback::ReactionTable::Summarizations => (
                "feedback_summarizations_reactions",
                "feedback_chat_histories_recaps_reactions",
            ),
        };
        for sql in every_statement(&table.statements(backend)) {
            assert!(sql.contains(own), "{sql} must address {own}");
            assert!(!sql.contains(other), "{sql} must not reach {other}");
        }
    }
}

#[test]
fn feedback_both_inserts_name_the_same_columns_in_the_same_order() {
    const COLUMNS: &str = "(id, chat_id, log_id, user_id, \"type\", created_at, updated_at)";
    for (table, backend) in tables() {
        let statements = table.statements(backend);
        assert!(
            statements.insert.contains(COLUMNS),
            "column order drifted: {}",
            statements.insert
        );
    }
}

#[test]
fn the_counting_read_adds_no_ordering_deduplication_or_limit() {
    for (table, backend) in tables() {
        let upper = table.statements(backend).select_by_chat_and_log.to_ascii_uppercase();
        for forbidden in ["ORDER BY", "GROUP BY", "DISTINCT", "LIMIT"] {
            assert!(!upper.contains(forbidden), "counting every duplicate needs no {forbidden}");
        }
    }
}

#[test]
fn the_reaction_vocabulary_is_exactly_the_four_go_values() {
    assert_eq!(ReactionType::NoReaction.as_stored(), "none");
    assert_eq!(ReactionType::UpVote.as_stored(), "up_vote");
    assert_eq!(ReactionType::DownVote.as_stored(), "down_vote");
    assert_eq!(ReactionType::Lmao.as_stored(), "lmao");
    for unknown in ["", "None", "upvote", "up-vote", "rofl"] {
        assert_eq!(ReactionType::from_stored(unknown), None);
    }
}

fn row(user_id: i64, reaction: &str) -> FeedbackReaction {
    FeedbackReaction {
        id: "1".to_owned(),
        chat_id: -100,
        log_id: "log".to_owned(),
        user_id,
        reaction_type: reaction.to_owned(),
        created_at: 0,
        updated_at: 0,
    }
}

#[test]
fn every_row_counts_and_unknown_reactions_count_nowhere() {
    let rows = vec![
        row(1, "up_vote"),
        row(1, "up_vote"),
        row(2, "down_vote"),
        row(3, "lmao"),
        row(4, "none"),
        row(5, "rofl"),
    ];
    let counts = feedback::counts(&rows);
    assert_eq!(
        counts,
        models::ReactionCounts { up_votes: 2, down_votes: 1, lmao: 1 }
    );
}

/// Runs the commands of one reaction on rows in memory.
fn react(rows: &mut Vec<(i64, ReactionType)>, user: i64, reaction: ReactionType) {
    let mut progress =
        feedback::ReactionProgress { removed: None, cleared: false, inserted: false };
    loop {
        match feedback::react_step(progress) {
            feedback::ReactionCommand::DeleteTyped => {
                let before = rows.len();
                rows.retain(|row| *row != (user, reaction));
                progress.removed = Some((before - rows.len()) as u64);
            }
            feedback::ReactionCommand::DeleteEvery => {
                rows.retain(|row| row.0 != user);
                progress.cleared = true;
            }
            feedback::ReactionCommand::Insert => {
                rows.push((user, reaction));
                progress.inserted = true;
            }
            feedback::ReactionCommand::Done => return,
        }
    }
}

#[test]
fn pressing_a_button_twice_takes_the_reaction_back() {
    let mut rows = vec![(9, ReactionType::Lmao)];
    react(&mut rows, 7, ReactionType::UpVote);
    assert_eq!(rows, vec![(9, ReactionType::Lmao), (7, ReactionType::UpVote)]);
    react(&mut rows, 7, ReactionType::DownVote);
    assert_eq!(rows, vec![(9, ReactionType::Lmao), (7, ReactionType::DownVote)]);
    react(&mut rows, 7, ReactionType::DownVote);
    assert_eq!(rows, vec![(9, ReactionType::Lmao)]);
}

#[test]
fn the_statements_of_a_reaction_bind_its_own_values() {
    let reacting = feedback::Reacting {
        backend: DbBackend::Postgres,
        table: feedback::ReactionTable::ChatHistoriesRecaps,
        chat_id: -5,
        log_id: "abc",
        user_id: 8,
        reaction: ReactionType::Lmao,
    };
    assert_eq!(
        feedback::delete_typed(&reacting).values,
        vec![
            SqlValue::Int(-5),
            SqlValue::Text("abc".to_owned()),
            SqlValue::Int(8),
            SqlValue::Text("lmao".to_owned()),
        ]
    );
    assert_eq!(feedback::delete_every_type(&reacting).values.len(), 3);
    assert_eq!(feedback::insert_unchecked(&reacting, "id", 3).values.len(), 7);
    let summary = feedback::has_summarization_reacted(
        DbBackend::Sqlite,
        1,
        "abc",
        2,
        ReactionType::UpVote,
    );
    assert!(summary.sql.contains("feedback_summarizations_reactions"));
    assert_eq!(feedback::list(DbBackend::Sqlite, reacting.table, 1, "abc").values.len(), 2);
}

// ---------------------------------------------------------------------------
// Plans
// ---------------------------------------------------------------------------

fn new_options() -> recap_options::NewOptions<'static> {
    recap_options::NewOptions { backend: DbBackend::Sqlite, id: "new", chat_id: -7, now: 99 }
}

fn sqls(statements: &[Statement]) -> Vec<&str> {
    statements.iter().map(|statement| statement.sql.as_str()).collect()
}

#[test]
fn first_use_creates_public_options_four_times_a_day() {
    let (statements, options) = recap_options::find_one_or_create(&new_options(), None);
    assert_eq!(sqls(&statements), vec![recap_options::INSERT_SQLITE]);
    assert_eq!(options.auto_recap_rates_per_day, 4);
    assert_eq!(options.send_mode(), Some(AutoRecapSendMode::Publicly));
    let (none, same) = recap_options::find_one_or_create(&new_options(), Some(options.clone()));
    assert!(none.is_empty());
    assert_eq!(same, options);
}

#[test]
fn setting_only_the_mode_leaves_the_rate_at_zero() {
    let mode = AutoRecapSendMode::OnlyPrivateSubscriptions;
    let created = recap_options::set_send_mode(&new_options(), &None, mode);
    assert_eq!(created[0].values[2], SqlValue::Int(1));
    assert_eq!(created[0].values[4], SqlValue::Int(0));
    let (_, options) = recap_options::find_one_or_create(&new_options(), None);
    let changed = recap_options::set_send_mode(&new_options(), &Some(options.clone()), mode);
    assert_eq!(sqls(&changed), vec![recap_options::SET_SEND_MODE]);
    let same = recap_options::set_send_mode(
        &new_options(),
        &Some(options),
        AutoRecapSendMode::Publicly,
    );
    assert!(same.is_empty());
}

#[test]
fn rates_and_pins_create_options_first() {
    assert_eq!(
        sqls(&recap_options::set_rates_per_day(&new_options(), &None, 3)),
        vec![recap_options::INSERT_SQLITE, recap_options::SET_RATES_PER_DAY]
    );
    assert_eq!(
        sqls(&recap_options::set_pin_enabled(&new_options(), &None)),
        vec![recap_options::INSERT_SQLITE, recap_options::SET_PIN]
    );
    assert_eq!(
        sqls(&recap_options::set_pin_disabled(&new_options(), &None)),
        vec![recap_options::INSERT_SQLITE]
    );
}

#[test]
fn a_chat_can_only_lengthen_the_manual_pause() {
    let (_, mut options) = recap_options::find_one_or_create(&new_options(), None);
    assert_eq!(recap_options::manual_rate_per_seconds(None, 30), 30);
    options.manual_recap_rate_per_seconds = 29;
    assert_eq!(recap_options::manual_rate_per_seconds(Some(&options), 30), 30);
    options.manual_recap_rate_per_seconds = 31;
    assert_eq!(recap_options::manual_rate_per_seconds(Some(&options), 30), 31);
}

fn group(chat_type: &'static str) -> feature_flags::GroupFlags<'static> {
    feature_flags::GroupFlags {
        backend: DbBackend::Postgres,
        id: "new",
        chat_id: -7,
        chat_type,
        chat_title: "Title",
        now: 5,
    }
}

fn flags(enabled: bool, title: &str, language: &str) -> models::TelegramChatFeatureFlags {
    models::TelegramChatFeatureFlags {
        id: "old".to_owned(),
        chat_id: -7,
        chat_type: "group".to_owned(),
        chat_title: title.to_owned(),
        feature_chat_histories_recap: enabled,
        feature_language: language.to_owned(),
        created_at: 1,
        updated_at: 1,
    }
}

#[test]
fn flags_are_for_groups_and_supergroups_only() {
    assert!(feature_flags::is_eligible_chat_type("group"));
    assert!(feature_flags::is_eligible_chat_type("supergroup"));
    assert!(!feature_flags::is_eligible_chat_type("channel"));
    assert!(feature_flags::enable_recap(&group("private"), &None).is_empty());
    assert!(feature_flags::disable_recap(&group("channel"), &None).is_empty());
    assert!(feature_flags::set_language(&group("private"), &None, "de").is_empty());
}

#[test]
fn switching_recaps_creates_and_repairs_rows() {
    assert_eq!(
        sqls(&feature_flags::enable_recap(&group("group"), &None)),
        vec![feature_flags::INSERT_POSTGRES, feature_flags::SET_RECAP]
    );
    assert_eq!(
        sqls(&feature_flags::enable_recap(&group("group"), &Some(flags(false, "", "en")))),
        vec![feature_flags::REPAIR_TITLE, feature_flags::SET_RECAP]
    );
    assert!(feature_flags::enable_recap(&group("group"), &Some(flags(true, "T", "en"))).is_empty());
    let created = feature_flags::disable_recap(&group("supergroup"), &None);
    assert_eq!(created[0].values[5], SqlValue::Text(String::new()));
    assert_eq!(
        sqls(&feature_flags::disable_recap(&group("group"), &Some(flags(true, "T", "en")))),
        vec![feature_flags::SET_RECAP]
    );
}

#[test]
fn the_language_is_english_until_it_is_set() {
    assert_eq!(feature_flags::find_language(&None), "en");
    assert_eq!(feature_flags::find_language(&Some(flags(true, "T", "zh"))), "zh");
    assert_eq!(
        sqls(&feature_flags::set_language(&group("group"), &None, "en")),
        vec![feature_flags::INSERT_POSTGRES]
    );
    assert_eq!(
        sqls(&feature_flags::set_language(&group("group"), &Some(flags(true, "T", "en")), "zh")),
        vec![feature_flags::SET_LANGUAGE]
    );
    assert!(!feature_flags::has_recap_enabled(&None));
    assert!(feature_flags::has_recap_enabled(&Some(flags(true, "T", "en"))));
    assert!(!feature_flags::has_joined_before(&None));
}

#[test]
fn subscribing_inserts_once_and_unsubscribing_removes_one_row() {
    let found = models::TelegramChatAutoRecapsSubscriber {
        id: "row".to_owned(),
        chat_id: -7,
        user_id: 4,
        created_at: 0,
        updated_at: 0,
    };
    let new = subscribers::subscribe(DbBackend::Sqlite, "id", -7, 4, 11, &None).expect("insert");
    assert_eq!(new.sql, subscribers::INSERT_SQLITE);
    assert_eq!(new.values[3], SqlValue::Int(11));
    let some = Some(found);
    assert_eq!(subscribers::subscribe(DbBackend::Sqlite, "id", -7, 4, 11, &some), None);
    let gone = subscribers::unsubscribe(&some).expect("delete");
    assert_eq!(gone.values, vec![SqlValue::Text("row".to_owned())]);
    assert_eq!(subscribers::unsubscribe(&None), None);
}

#[test]
fn leaving_a_chat_prunes_in_a_fixed_order() {
    let steps = chat_cleanup::prune_chat_data_after_bot_left(-3);
    let names: Vec<&str> = steps.iter().map(|step| step.name).collect();
    assert_eq!(
        names,
        vec!["subscribers", "feature flags", "recap options", "chat histories", "recap log content"]
    );
    assert_eq!(steps[4].statement.values.len(), 3);
}

#[test]
fn becoming_a_supergroup_moves_in_a_fixed_order() {
    let steps = migration::migrate_chat_data(-3, -1003);
    let names: Vec<&str> = steps.iter().map(|step| step.name).collect();
    assert_eq!(
        names,
        vec!["feature flags", "recap options", "subscribers", "chat histories", "recap logs"]
    );
    assert_eq!(
        steps[0].statement.values,
        vec![
            SqlValue::Int(-1003),
            SqlValue::Text("supergroup".to_owned()),
            SqlValue::Int(-3),
        ]
    );
}

#[test]
fn an_empty_message_is_not_stored() {
    let mut message = models::NewTelegramChatHistory {
        chat_id: -1,
        chat_type: "group".to_owned(),
        chat_title: "T".to_owned(),
        message_id: 10,
        user_id: 2,
        username: "u".to_owned(),
        full_name: "U".to_owned(),
        text: String::new(),
        replied_to_message_id: 0,
        replied_to_user_id: 0,
        replied_to_full_name: String::new(),
        replied_to_username: String::new(),
        replied_to_text: String::new(),
        replied_to_chat_type: String::new(),
        chatted_at: 1000,
    };
    assert_eq!(chat_history::save_one(&message, 5), None);
    message.text = " ".to_owned();
    let stored = chat_history::save_one(&message, 5).expect("white space is stored");
    assert_eq!(stored.values.len(), 20);
    assert_eq!(stored.values[19], SqlValue::Text("text".to_owned()));
}

#[test]
fn windows_are_measured_back_from_now() {
    let hours = chat_history::messages_since_hours(-1, 2, 10_000_000);
    assert_eq!(hours.values, vec![SqlValue::Int(-1), SqlValue::Int(2_800_000)]);
    let before = chat_history::find_by_time_before(-1, 600, 1000);
    assert_eq!(before.values, vec![SqlValue::Int(-1), SqlValue::Int(400)]);
    assert!(chat_history::is_recap_enabled(None));
    assert!(!chat_history::is_recap_enabled(Some(0)));
    assert!(chat_history::is_recap_enabled(Some(1)));
}

#[test]
fn plain_messages_are_stored_and_read_back_in_order() {
    let message = chat_history::PlainMessage {
        chat_id: -1,
        message_id: 10,
        from_id: Some(2),
        from_full_name: Some("Ann".to_owned()),
        from_username: None,
        kind: models::MessageKind::Photo,
        text: None,
        media_url: Some("u".to_owned()),
        created_at: 5,
    };
    let stored = chat_history::insert_message(&message);
    assert_eq!(stored.sql, chat_history::INSERT_MESSAGE);
    assert_eq!(
        stored.values,
        vec![
            SqlValue::Int(-1),
            SqlValue::Int(10),
            SqlValue::Int(2),
            SqlValue::Text("Ann".to_owned()),
            SqlValue::NoText,
            SqlValue::Text("photo".to_owned()),
            SqlValue::NoText,
            SqlValue::Text("u".to_owned()),
            SqlValue::Int(5),
        ]
    );
    assert_eq!(placeholder_count(&stored.sql), stored.values.len());
    let recent = chat_history::recent_messages(-1, 50);
    assert_eq!(recent.sql, chat_history::RECENT_MESSAGES);
    assert_eq!(recent.values, vec![SqlValue::Int(-1), SqlValue::Int(50)]);
    let enabled = chat_history::recap_enabled_query(-1);
    assert_eq!(enabled.sql, chat_history::RECAP_ENABLED);
    assert_eq!(enabled.values, vec![SqlValue::Int(-1)]);
    let edited = chat_history::update_message_text(-1, 10, "new");
    assert_eq!(edited.sql, chat_history::UPDATE_TEXT);
    assert_eq!(
        edited.values,
        vec![SqlValue::Text("new".to_owned()), SqlValue::Int(-1), SqlValue::Int(10)]
    );
}
