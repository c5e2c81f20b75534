//! What holds of the statements on reactions: each speaks of its own table alone, and
//! compares identifiers as the backend stores them.

use vstd::prelude::*;

use crate::db::feedback::{
    self, ReactionTable, Statements, RECAPS_POSTGRES_DELETE_EVERY, RECAPS_POSTGRES_DELETE_TYPED,
    RECAPS_POSTGRES_INSERT, RECAPS_POSTGRES_SELECT, RECAPS_POSTGRES_SELECT_ONE,
    RECAPS_SQLITE_DELETE_EVERY, RECAPS_SQLITE_DELETE_TYPED, RECAPS_SQLITE_INSERT,
    RECAPS_SQLITE_SELECT, RECAPS_SQLITE_SELECT_ONE, SUMMARIZATIONS_POSTGRES_DELETE_EVERY,
    SUMMARIZATIONS_POSTGRES_DELETE_TYPED, SUMMARIZATIONS_POSTGRES_INSERT,
    SUMMARIZATIONS_POSTGRES_SELECT, SUMMARIZATIONS_POSTGRES_SELECT_ONE,
    SUMMARIZATIONS_SQLITE_DELETE_EVERY, SUMMARIZATIONS_SQLITE_DELETE_TYPED,
    SUMMARIZATIONS_SQLITE_INSERT, SUMMARIZATIONS_SQLITE_SELECT, SUMMARIZATIONS_SQLITE_SELECT_ONE,
};
use crate::db::DbBackend;
use crate::text;

verus! {

/// The name of a table of reactions.
pub open spec fn table_name(table: ReactionTable) -> Seq<char> {
    match table {
        ReactionTable::ChatHistoriesRecaps => "feedback_chat_histories_recaps_reactions"@,
        ReactionTable::Summarizations => "feedback_summarizations_reactions"@,
    }
}

/// The other table of reactions.
pub open spec fn other_table(table: ReactionTable) -> ReactionTable {
    match table {
        ReactionTable::ChatHistoriesRecaps => ReactionTable::Summarizations,
        ReactionTable::Summarizations => ReactionTable::ChatHistoriesRecaps,
    }
}

/// Every statement of a table; the last one inserts.
pub open spec fn every_statement(statements: Statements) -> Seq<Seq<char>> {
    seq![
        statements.select_by_chat_and_log@,
        statements.select_one_typed@,
        statements.delete_typed@,
        statements.delete_every_type@,
        statements.insert@,
    ]
}

/// Whether a statement speaks of one table of reactions and not of the other.
pub open spec fn speaks_of(statement: Seq<char>, table: ReactionTable) -> bool {
    text::occurs(statement, table_name(table)) && !text::occurs(
        statement,
        table_name(other_table(table)),
    )
}

/// A text in which no two characters stand as two of the pattern do holds no pattern.
proof fn lemma_absent(s: Seq<char>, pattern: Seq<char>, i: int, d: int)
    requires
        0 <= i,
        0 < d,
        i + d < pattern.len(),
        forall|m: int|
            0 <= m && m + d < s.len() ==> !(#[trigger] s[m] == pattern[i] && s[m + d] == pattern[i
                + d]),
    ensures
        !text::occurs(s, pattern),
{
    assert forall|k: int| !text::matches_at(s, pattern, k) by {
        if text::matches_at(s, pattern, k) {
            let t = s.subrange(k, k + pattern.len());
            assert(t[i] == s[k + i]);
            assert(t[i + d] == s[k + i + d]);
        }
    }
}

/// A statement on an identifier that is stored as one.
pub open spec fn compares_uuid(statement: Seq<char>) -> bool {
    text::occurs(statement, "log_id = CAST($2 AS UUID)"@)
}

/// A statement that turns a stored identifier into text to compare it.
pub open spec fn compares_as_text(statement: Seq<char>) -> bool {
    text::occurs(statement, "CAST(log_id AS TEXT) ="@)
}

/// A statement that neither orders, groups nor drops rows.
pub open spec fn keeps_rows(statement: Seq<char>) -> bool {
    !text::occurs(statement, "ORDER BY"@) && !text::occurs(statement, "GROUP BY"@) && !text::occurs(
        statement,
        "DISTINCT"@,
    ) && !text::occurs(statement, "LIMIT"@)
}

proof fn lemma_recaps_postgres_select()
    ensures
        speaks_of(RECAPS_POSTGRES_SELECT@, ReactionTable::ChatHistoriesRecaps),
        compares_uuid(RECAPS_POSTGRES_SELECT@),
        !compares_as_text(RECAPS_POSTGRES_SELECT@),
        keeps_rows(RECAPS_POSTGRES_SELECT@),
{
    let s = RECAPS_POSTGRES_SELECT@;
    reveal_strlit("SELECT CAST(id AS TEXT), CAST(chat_id AS TEXT), CAST(log_id AS TEXT),
        CAST(user_id AS TEXT), CAST(\"type\" AS TEXT),
        CAST(created_at AS TEXT), CAST(updated_at AS TEXT)
     FROM feedback_chat_histories_recaps_reactions
     WHERE chat_id = $1 AND log_id = CAST($2 AS UUID)");
    reveal_strlit("feedback_chat_histories_recaps_reactions");
    reveal_strlit("feedback_summarizations_reactions");
    reveal_strlit("log_id = CAST($2 AS UUID)");
    reveal_strlit("CAST(log_id AS TEXT) =");
    reveal_strlit("ORDER BY");
    reveal_strlit("GROUP BY");
    reveal_strlit("DISTINCT");
    reveal_strlit("LIMIT");
    assert(s.subrange(192, 232) =~= "feedback_chat_histories_recaps_reactions"@);
    assert(text::matches_at(s, "feedback_chat_histories_recaps_reactions"@, 192));
    lemma_absent(s, "feedback_summarizations_reactions"@, 8, 1);
    assert(s.subrange(261, 286) =~= "log_id = CAST($2 AS UUID)"@);
    assert(text::matches_at(s, "log_id = CAST($2 AS UUID)"@, 261));
    lemma_absent(s, "CAST(log_id AS TEXT) ="@, 19, 2);
    lemma_absent(s, "ORDER BY"@, 0, 1);
    lemma_absent(s, "GROUP BY"@, 0, 1);
    lemma_absent(s, "DISTINCT"@, 0, 1);
    lemma_absent(s, "LIMIT"@, 0, 1);
}

proof fn lemma_recaps_postgres_select_one()
    ensures
        speaks_of(RECAPS_POSTGRES_SELECT_ONE@, ReactionTable::ChatHistoriesRecaps),
        compares_uuid(RECAPS_POSTGRES_SELECT_ONE@),
        !compares_as_text(RECAPS_POSTGRES_SELECT_ONE@),
{
    let s = RECAPS_POSTGRES_SELECT_ONE@;
    reveal_strlit("SELECT CAST(id AS TEXT)
     FROM feedback_chat_histories_recaps_reactions
     WHERE chat_id = $1 AND log_id = CAST($2 AS UUID) AND user_id = $3 AND \"type\" = $4
     LIMIT 1");
    reveal_strlit("feedback_chat_histories_recaps_reactions");
    reveal_strlit("feedback_summarizations_reactions");
    reveal_strlit("log_id = CAST($2 AS UUID)");
    reveal_strlit("CAST(log_id AS TEXT) =");
    assert(s.subrange(34, 74) =~= "feedback_chat_histories_recaps_reactions"@);
    assert(text::matches_at(s, "feedback_chat_histories_recaps_reactions"@, 34));
    lemma_absent(s, "feedback_summarizations_reactions"@, 8, 1);
    assert(s.subrange(103, 128) =~= "log_id = CAST($2 AS UUID)"@);
    assert(text::matches_at(s, "log_id = CAST($2 AS UUID)"@, 103));
    lemma_absent(s, "CAST(log_id AS TEXT) ="@, 19, 2);
}

proof fn lemma_recaps_postgres_delete_typed()
    ensures
        speaks_of(RECAPS_POSTGRES_DELETE_TYPED@, ReactionTable::ChatHistoriesRecaps),
        compares_uuid(RECAPS_POSTGRES_DELETE_TYPED@),
        !compares_as_text(RECAPS_POSTGRES_DELETE_TYPED@),
{
    let s = RECAPS_POSTGRES_DELETE_TYPED@;
    reveal_strlit("DELETE FROM feedback_chat_histories_recaps_reactions
     WHERE chat_id = $1 AND log_id = CAST($2 AS UUID) AND user_id = $3 AND \"type\" = $4");
    reveal_strlit("feedback_chat_histories_recaps_reactions");
    reveal_strlit("feedback_summarizations_reactions");
    reveal_strlit("log_id = CAST($2 AS UUID)");
    reveal_strlit("CAST(log_id AS TEXT) =");
    assert(s.subrange(12, 52) =~= "feedback_chat_histories_recaps_reactions"@);
    assert(text::matches_at(s, "feedback_chat_histories_recaps_reactions"@, 12));
    lemma_absent(s, "feedback_summarizations_reactions"@, 8, 1);
    assert(s.subrange(81, 106) =~= "log_id = CAST($2 AS UUID)"@);
    assert(text::matches_at(s, "log_id = CAST($2 AS UUID)"@, 81));
    lemma_absent(s, "CAST(log_id AS TEXT) ="@, 19, 2);
}

proof fn lemma_recaps_postgres_delete_every()
    ensures
        speaks_of(RECAPS_POSTGRES_DELETE_EVERY@, ReactionTable::ChatHistoriesRecaps),
        compares_uuid(RECAPS_POSTGRES_DELETE_EVERY@),
        !compares_as_text(RECAPS_POSTGRES_DELETE_EVERY@),
{
    let s = RECAPS_POSTGRES_DELETE_EVERY@;
    reveal_strlit("DELETE FROM feedback_chat_histories_recaps_reactions
     WHERE chat_id = $1 AND log_id = CAST($2 AS UUID) AND user_id = $3");
    reveal_strlit("feedback_chat_histories_recaps_reactions");
    reveal_strlit("feedback_summarizations_reactions");
    reveal_strlit("log_id = CAST($2 AS UUID)");
    reveal_strlit("CAST(log_id AS TEXT) =");
    assert(s.subrange(12, 52) =~= "feedback_chat_histories_recaps_reactions"@);
    assert(text::matches_at(s, "feedback_chat_histories_recaps_reactions"@, 12));
    lemma_absent(s, "feedback_summarizations_reactions"@, 8, 1);
    assert(s.subrange(81, 106) =~= "log_id = CAST($2 AS UUID)"@);
    assert(text::matches_at(s, "log_id = CAST($2 AS UUID)"@, 81));
    lemma_absent(s, "CAST(log_id AS TEXT) ="@, 19, 2);
}

proof fn lemma_recaps_postgres_insert()
    ensures
        speaks_of(RECAPS_POSTGRES_INSERT@, ReactionTable::ChatHistoriesRecaps),
        !compares_as_text(RECAPS_POSTGRES_INSERT@),
{
    let s = RECAPS_POSTGRES_INSERT@;
    reveal_strlit("INSERT INTO feedback_chat_histories_recaps_reactions
        (id, chat_id, log_id, user_id, \"type\", created_at, updated_at)
     VALUES (CAST($1 AS UUID), $2, CAST($3 AS UUID), $4, $5, $6, $7)");
    reveal_strlit("feedback_chat_histories_recaps_reactions");
    reveal_strlit("feedback_summarizations_reactions");
    reveal_strlit("CAST(log_id AS TEXT) =");
    assert(s.subrange(12, 52) =~= "feedback_chat_histories_recaps_reactions"@);
    assert(text::matches_at(s, "feedback_chat_histories_recaps_reactions"@, 12));
    lemma_absent(s, "feedback_summarizations_reactions"@, 8, 1);
    lemma_absent(s, "CAST(log_id AS TEXT) ="@, 19, 2);
}

proof fn lemma_recaps_sqlite_select()
    ensures
        speaks_of(RECAPS_SQLITE_SELECT@, ReactionTable::ChatHistoriesRecaps),
        !text::occurs(RECAPS_SQLITE_SELECT@, "UUID"@),
        keeps_rows(RECAPS_SQLITE_SELECT@),
{
    let s = RECAPS_SQLITE_SELECT@;
    reveal_strlit("SELECT CAST(id AS TEXT), CAST(chat_id AS TEXT), CAST(log_id AS TEXT),
        CAST(user_id AS TEXT), CAST(\"type\" AS TEXT),
        CAST(created_at AS TEXT), CAST(updated_at AS TEXT)
     FROM feedback_chat_histories_recaps_reactions
     WHERE chat_id = $1 AND log_id = $2");
    reveal_strlit("feedback_chat_histories_recaps_reactions");
    reveal_strlit("feedback_summarizations_reactions");
    reveal_strlit("UUID");
    reveal_strlit("ORDER BY");
    reveal_strlit("GROUP BY");
    reveal_strlit("DISTINCT");
    reveal_strlit("LIMIT");
    assert(s.subrange(192, 232) =~= "feedback_chat_histories_recaps_reactions"@);
    assert(text::matches_at(s, "feedback_chat_histories_recaps_reactions"@, 192));
    lemma_absent(s, "feedback_summarizations_reactions"@, 8, 1);
    lemma_absent(s, "UUID"@, 0, 1);
    lemma_absent(s, "ORDER BY"@, 0, 1);
    lemma_absent(s, "GROUP BY"@, 0, 1);
    lemma_absent(s, "DISTINCT"@, 0, 1);
    lemma_absent(s, "LIMIT"@, 0, 1);
}

proof fn lemma_recaps_sqlite_select_one()
    ensures
        speaks_of(RECAPS_SQLITE_SELECT_ONE@, ReactionTable::ChatHistoriesRecaps),
        !text::occurs(RECAPS_SQLITE_SELECT_ONE@, "UUID"@),
{
    let s = RECAPS_SQLITE_SELECT_ONE@;
    reveal_strlit("SELECT CAST(id AS TEXT)
     FROM feedback_chat_histories_recaps_reactions
     WHERE chat_id = $1 AND log_id = $2 AND user_id = $3 AND \"type\" = $4
     LIMIT 1");
    reveal_strlit("feedback_chat_histories_recaps_reactions");
    reveal_strlit("feedback_summarizations_reactions");
    reveal_strlit("UUID");
    assert(s.subrange(34, 74) =~= "feedback_chat_histories_recaps_reactions"@);
    assert(text::matches_at(s, "feedback_chat_histories_recaps_reactions"@, 34));
    lemma_absent(s, "feedback_summarizations_reactions"@, 8, 1);
    lemma_absent(s, "UUID"@, 0, 1);
}

proof fn lemma_recaps_sqlite_delete_typed()
    ensures
        speaks_of(RECAPS_SQLITE_DELETE_TYPED@, ReactionTable::ChatHistoriesRecaps),
        !text::occurs(RECAPS_SQLITE_DELETE_TYPED@, "UUID"@),
{
    let s = RECAPS_SQLITE_DELETE_TYPED@;
    reveal_strlit("DELETE FROM feedback_chat_histories_recaps_reactions
     WHERE chat_id = $1 AND log_id = $2 AND user_id = $3 AND \"type\" = $4");
    reveal_strlit("feedback_chat_histories_recaps_reactions");
    reveal_strlit("feedback_summarizations_reactions");
    reveal_strlit("UUID");
    assert(s.subrange(12, 52) =~= "feedback_chat_histories_recaps_reactions"@);
    assert(text::matches_at(s, "feedback_chat_histories_recaps_reactions"@, 12));
    lemma_absent(s, "feedback_summarizations_reactions"@, 8, 1);
    lemma_absent(s, "UUID"@, 0, 1);
}

proof fn lemma_recaps_sqlite_delete_every()
    ensures
        speaks_of(RECAPS_SQLITE_DELETE_EVERY@, ReactionTable::ChatHistoriesRecaps),
        !text::occurs(RECAPS_SQLITE_DELETE_EVERY@, "UUID"@),
{
    let s = RECAPS_SQLITE_DELETE_EVERY@;
    reveal_strlit("DELETE FROM feedback_chat_histories_recaps_reactions
     WHERE chat_id = $1 AND log_id = $2 AND user_id = $3");
    reveal_strlit("feedback_chat_histories_recaps_reactions");
    reveal_strlit("feedback_summarizations_reactions");
    reveal_strlit("UUID");
    assert(s.subrange(12, 52) =~= "feedback_chat_histories_recaps_reactions"@);
    assert(text::matches_at(s, "feedback_chat_histories_recaps_reactions"@, 12));
    lemma_absent(s, "feedback_summarizations_reactions"@, 8, 1);
    lemma_absent(s, "UUID"@, 0, 1);
}

proof fn lemma_recaps_sqlite_insert()
    ensures
        speaks_of(RECAPS_SQLITE_INSERT@, ReactionTable::ChatHistoriesRecaps),
        !text::occurs(RECAPS_SQLITE_INSERT@, "UUID"@),
{
    let s = RECAPS_SQLITE_INSERT@;
    reveal_strlit("INSERT INTO feedback_chat_histories_recaps_reactions
        (id, chat_id, log_id, user_id, \"type\", created_at, updated_at)
     VALUES ($1, $2, $3, $4, $5, $6, $7)");
    reveal_strlit("feedback_chat_histories_recaps_reactions");
    reveal_strlit("feedback_summarizations_reactions");
    reveal_strlit("UUID");
    assert(s.subrange(12, 52) =~= "feedback_chat_histories_recaps_reactions"@);
    assert(text::matches_at(s, "feedback_chat_histories_recaps_reactions"@, 12));
    lemma_absent(s, "feedback_summarizations_reactions"@, 8, 1);
    lemma_absent(s, "UUID"@, 0, 1);
}

proof fn lemma_summarizations_postgres_select()
    ensures
        speaks_of(SUMMARIZATIONS_POSTGRES_SELECT@, ReactionTable::Summarizations),
        compares_uuid(SUMMARIZATIONS_POSTGRES_SELECT@),
        !compares_as_text(SUMMARIZATIONS_POSTGRES_SELECT@),
        keeps_rows(SUMMARIZATIONS_POSTGRES_SELECT@),
{
    let s = SUMMARIZATIONS_POSTGRES_SELECT@;
    reveal_strlit("SELECT CAST(id AS TEXT), CAST(chat_id AS TEXT), CAST(log_id AS TEXT),
        CAST(user_id AS TEXT), CAST(\"type\" AS TEXT),
        CAST(created_at AS TEXT), CAST(updated_at AS TEXT)
     FROM feedback_summarizations_reactions
     WHERE chat_id = $1 AND log_id = CAST($2 AS UUID)");
    reveal_strlit("feedback_summarizations_reactions");
    reveal_strlit("feedback_chat_histories_recaps_reactions");
    reveal_strlit("log_id = CAST($2 AS UUID)");
    reveal_strlit("CAST(log_id AS TEXT) =");
    reveal_strlit("ORDER BY");
    reveal_strlit("GROUP BY");
    reveal_strlit("DISTINCT");
    reveal_strlit("LIMIT");
    assert(s.subrange(192, 225) =~= "feedback_summarizations_reactions"@);
    assert(text::matches_at(s, "feedback_summarizations_reactions"@, 192));
    lemma_absent(s, "feedback_chat_histories_recaps_reactions"@, 8, 1);
    assert(s.subrange(254, 279) =~= "log_id = CAST($2 AS UUID)"@);
    assert(text::matches_at(s, "log_id = CAST($2 AS UUID)"@, 254));
    lemma_absent(s, "CAST(log_id AS TEXT) ="@, 19, 2);
    lemma_absent(s, "ORDER BY"@, 0, 1);
    lemma_absent(s, "GROUP BY"@, 0, 1);
    lemma_absent(s, "DISTINCT"@, 0, 1);
    lemma_absent(s, "LIMIT"@, 0, 1);
}

proof fn lemma_summarizations_postgres_select_one()
    ensures
        speaks_of(SUMMARIZATIONS_POSTGRES_SELECT_ONE@, ReactionTable::Summarizations),
        compares_uuid(SUMMARIZATIONS_POSTGRES_SELECT_ONE@),
        !compares_as_text(SUMMARIZATIONS_POSTGRES_SELECT_ONE@),
{
    let s = SUMMARIZATIONS_POSTGRES_SELECT_ONE@;
    reveal_strlit("SELECT CAST(id AS TEXT)
     FROM feedback_summarizations_reactions
     WHERE chat_id = $1 AND log_id = CAST($2 AS UUID) AND user_id = $3 AND \"type\" = $4
     LIMIT 1");
    reveal_strlit("feedback_summarizations_reactions");
    reveal_strlit("feedback_chat_histories_recaps_reactions");
    reveal_strlit("log_id = CAST($2 AS UUID)");
    reveal_strlit("CAST(log_id AS TEXT) =");
    assert(s.subrange(34, 67) =~= "feedback_summarizations_reactions"@);
    assert(text::matches_at(s, "feedback_summarizations_reactions"@, 34));
    lemma_absent(s, "feedback_chat_histories_recaps_reactions"@, 8, 1);
    assert(s.subrange(96, 121) =~= "log_id = CAST($2 AS UUID)"@);
    assert(text::matches_at(s, "log_id = CAST($2 AS UUID)"@, 96));
    lemma_absent(s, "CAST(log_id AS TEXT) ="@, 19, 2);
}

proof fn lemma_summarizations_postgres_delete_typed()
    ensures
        speaks_of(SUMMARIZATIONS_POSTGRES_DELETE_TYPED@, ReactionTable::Summarizations),
        compares_uuid(SUMMARIZATIONS_POSTGRES_DELETE_TYPED@),
        !compares_as_text(SUMMARIZATIONS_POSTGRES_DELETE_TYPED@),
{
    let s = SUMMARIZATIONS_POSTGRES_DELETE_TYPED@;
    reveal_strlit("DELETE FROM feedback_summarizations_reactions
     WHERE chat_id = $1 AND log_id = CAST($2 AS UUID) AND user_id = $3 AND \"type\" = $4");
    reveal_strlit("feedback_summarizations_reactions");
    reveal_strlit("feedback_chat_histories_recaps_reactions");
    reveal_strlit("log_id = CAST($2 AS UUID)");
    reveal_strlit("CAST(log_id AS TEXT) =");
    assert(s.subrange(12, 45) =~= "feedback_summarizations_reactions"@);
    assert(text::matches_at(s, "feedback_summarizations_reactions"@, 12));
    lemma_absent(s, "feedback_chat_histories_recaps_reactions"@, 8, 1);
    assert(s.subrange(74, 99) =~= "log_id = CAST($2 AS UUID)"@);
    assert(text::matches_at(s, "log_id = CAST($2 AS UUID)"@, 74));
    lemma_absent(s, "CAST(log_id AS TEXT) ="@, 19, 2);
}

proof fn lemma_summarizations_postgres_delete_every()
    ensures
        speaks_of(SUMMARIZATIONS_POSTGRES_DELETE_EVERY@, ReactionTable::Summarizations),
        compares_uuid(SUMMARIZATIONS_POSTGRES_DELETE_EVERY@),
        !compares_as_text(SUMMARIZATIONS_POSTGRES_DELETE_EVERY@),
{
    let s = SUMMARIZATIONS_POSTGRES_DELETE_EVERY@;
    reveal_strlit("DELETE FROM feedback_summarizations_reactions
     WHERE chat_id = $1 AND log_id = CAST($2 AS UUID) AND user_id = $3");
    reveal_strlit("feedback_summarizations_reactions");
    reveal_strlit("feedback_chat_histories_recaps_reactions");
    reveal_strlit("log_id = CAST($2 AS UUID)");
    reveal_strlit("CAST(log_id AS TEXT) =");
    assert(s.subrange(12, 45) =~= "feedback_summarizations_reactions"@);
    assert(text::matches_at(s, "feedback_summarizations_reactions"@, 12));
    lemma_absent(s, "feedback_chat_histories_recaps_reactions"@, 8, 1);
    assert(s.subrange(74, 99) =~= "log_id = CAST($2 AS UUID)"@);
    assert(text::matches_at(s, "log_id = CAST($2 AS UUID)"@, 74));
    lemma_absent(s, "CAST(log_id AS TEXT) ="@, 19, 2);
}

proof fn lemma_summarizations_postgres_insert()
    ensures
        speaks_of(SUMMARIZATIONS_POSTGRES_INSERT@, ReactionTable::Summarizations),
        !compares_as_text(SUMMARIZATIONS_POSTGRES_INSERT@),
{
    let s = SUMMARIZATIONS_POSTGRES_INSERT@;
    reveal_strlit("INSERT INTO feedback_summarizations_reactions
        (id, chat_id, log_id, user_id, \"type\", created_at, updated_at)
     VALUES (CAST($1 AS UUID), $2, CAST($3 AS UUID), $4, $5, $6, $7)");
    reveal_strlit("feedback_summarizations_reactions");
    reveal_strlit("feedback_chat_histories_recaps_reactions");
    reveal_strlit("CAST(log_id AS TEXT) =");
    assert(s.subrange(12, 45) =~= "feedback_summarizations_reactions"@);
    assert(text::matches_at(s, "feedback_summarizations_reactions"@, 12));
    lemma_absent(s, "feedback_chat_histories_recaps_reactions"@, 8, 1);
    lemma_absent(s, "CAST(log_id AS TEXT) ="@, 19, 2);
}

proof fn lemma_summarizations_sqlite_select()
    ensures
        speaks_of(SUMMARIZATIONS_SQLITE_SELECT@, ReactionTable::Summarizations),
        !text::occurs(SUMMARIZATIONS_SQLITE_SELECT@, "UUID"@),
        keeps_rows(SUMMARIZATIONS_SQLITE_SELECT@),
{
    let s = SUMMARIZATIONS_SQLITE_SELECT@;
    reveal_strlit("SELECT CAST(id AS TEXT), CAST(chat_id AS TEXT), CAST(log_id AS TEXT),
        CAST(user_id AS TEXT), CAST(\"type\" AS TEXT),
        CAST(created_at AS TEXT), CAST(updated_at AS TEXT)
     FROM feedback_summarizations_reactions
     WHERE chat_id = $1 AND log_id = $2");
    reveal_strlit("feedback_summarizations_reactions");
    reveal_strlit("feedback_chat_histories_recaps_reactions");
    reveal_strlit("UUID");
    reveal_strlit("ORDER BY");
    reveal_strlit("GROUP BY");
    reveal_strlit("DISTINCT");
    reveal_strlit("LIMIT");
    assert(s.subrange(192, 225) =~= "feedback_summarizations_reactions"@);
    assert(text::matches_at(s, "feedback_summarizations_reactions"@, 192));
    lemma_absent(s, "feedback_chat_histories_recaps_reactions"@, 8, 1);
    lemma_absent(s, "UUID"@, 0, 1);
    lemma_absent(s, "ORDER BY"@, 0, 1);
    lemma_absent(s, "GROUP BY"@, 0, 1);
    lemma_absent(s, "DISTINCT"@, 0, 1);
    lemma_absent(s, "LIMIT"@, 0, 1);
}

proof fn lemma_summarizations_sqlite_select_one()
    ensures
        speaks_of(SUMMARIZATIONS_SQLITE_SELECT_ONE@, ReactionTable::Summarizations),
        !text::occurs(SUMMARIZATIONS_SQLITE_SELECT_ONE@, "UUID"@),
{
    let s = SUMMARIZATIONS_SQLITE_SELECT_ONE@;
    reveal_strlit("SELECT CAST(id AS TEXT)
     FROM feedback_summarizations_reactions
     WHERE chat_id = $1 AND log_id = $2 AND user_id = $3 AND \"type\" = $4
     LIMIT 1");
    reveal_strlit("feedback_summarizations_reactions");
    reveal_strlit("feedback_chat_histories_recaps_reactions");
    reveal_strlit("UUID");
    assert(s.subrange(34, 67) =~= "feedback_summarizations_reactions"@);
    assert(text::matches_at(s, "feedback_summarizations_reactions"@, 34));
    lemma_absent(s, "feedback_chat_histories_recaps_reactions"@, 8, 1);
    lemma_absent(s, "UUID"@, 0, 1);
}

proof fn lemma_summarizations_sqlite_delete_typed()
    ensures
        speaks_of(SUMMARIZATIONS_SQLITE_DELETE_TYPED@, ReactionTable::Summarizations),
        !text::occurs(SUMMARIZATIONS_SQLITE_DELETE_TYPED@, "UUID"@),
{
    let s = SUMMARIZATIONS_SQLITE_DELETE_TYPED@;
    reveal_strlit("DELETE FROM feedback_summarizations_reactions
     WHERE chat_id = $1 AND log_id = $2 AND user_id = $3 AND \"type\" = $4");
    reveal_strlit("feedback_summarizations_reactions");
    reveal_strlit("feedback_chat_histories_recaps_reactions");
    reveal_strlit("UUID");
    assert(s.subrange(12, 45) =~= "feedback_summarizations_reactions"@);
    assert(text::matches_at(s, "feedback_summarizations_reactions"@, 12));
    lemma_absent(s, "feedback_chat_histories_recaps_reactions"@, 8, 1);
    lemma_absent(s, "UUID"@, 0, 1);
}

proof fn lemma_summarizations_sqlite_delete_every()
    ensures
        speaks_of(SUMMARIZATIONS_SQLITE_DELETE_EVERY@, ReactionTable::Summarizations),
        !text::occurs(SUMMARIZATIONS_SQLITE_DELETE_EVERY@, "UUID"@),
{
    let s = SUMMARIZATIONS_SQLITE_DELETE_EVERY@;
    reveal_strlit("DELETE FROM feedback_summarizations_reactions
     WHERE chat_id = $1 AND log_id = $2 AND user_id = $3");
    reveal_strlit("feedback_summarizations_reactions");
    reveal_strlit("feedback_chat_histories_recaps_reactions");
    reveal_strlit("UUID");
    assert(s.subrange(12, 45) =~= "feedback_summarizations_reactions"@);
    assert(text::matches_at(s, "feedback_summarizations_reactions"@, 12));
    lemma_absent(s, "feedback_chat_histories_recaps_reactions"@, 8, 1);
    lemma_absent(s, "UUID"@, 0, 1);
}

proof fn lemma_summarizations_sqlite_insert()
    ensures
        speaks_of(SUMMARIZATIONS_SQLITE_INSERT@, ReactionTable::Summarizations),
        !text::occurs(SUMMARIZATIONS_SQLITE_INSERT@, "UUID"@),
{
    let s = SUMMARIZATIONS_SQLITE_INSERT@;
    reveal_strlit("INSERT INTO feedback_summarizations_reactions
        (id, chat_id, log_id, user_id, \"type\", created_at, updated_at)
     VALUES ($1, $2, $3, $4, $5, $6, $7)");
    reveal_strlit("feedback_summarizations_reactions");
    reveal_strlit("feedback_chat_histories_recaps_reactions");
    reveal_strlit("UUID");
    assert(s.subrange(12, 45) =~= "feedback_summarizations_reactions"@);
    assert(text::matches_at(s, "feedback_summarizations_reactions"@, 12));
    lemma_absent(s, "feedback_chat_histories_recaps_reactions"@, 8, 1);
    lemma_absent(s, "UUID"@, 0, 1);
}

/// Each statement speaks of its own table and not of the other. On SQLite none speaks of a
/// UUID. On Postgres each but the insertion compares an identifier as the UUID that it is,
/// and none turns it into text for that. All reactions to one thing are listed: the
/// statement for that neither orders, groups nor drops rows.
pub proof fn lemma_statements(table: ReactionTable, backend: DbBackend, i: int)
    requires
        0 <= i < 5,
    ensures
        ({
            let statement = every_statement(feedback::statements_of(table, backend))[i];
            &&& speaks_of(statement, table)
            &&& backend is Sqlite ==> !text::occurs(statement, "UUID"@)
            &&& backend is Postgres && i < 4 ==> compares_uuid(statement)
            &&& backend is Postgres ==> !compares_as_text(statement)
            &&& i == 0 ==> keeps_rows(statement)
        }),
{
    match (table, backend) {
        (ReactionTable::ChatHistoriesRecaps, DbBackend::Postgres) => {
            lemma_recaps_postgres_select();
            lemma_recaps_postgres_select_one();
            lemma_recaps_postgres_delete_typed();
            lemma_recaps_postgres_delete_every();
            lemma_recaps_postgres_insert();
        },
        (ReactionTable::ChatHistoriesRecaps, DbBackend::Sqlite) => {
            lemma_recaps_sqlite_select();
            lemma_recaps_sqlite_select_one();
            lemma_recaps_sqlite_delete_typed();
            lemma_recaps_sqlite_delete_every();
            lemma_recaps_sqlite_insert();
        },
        (ReactionTable::Summarizations, DbBackend::Postgres) => {
            lemma_summarizations_postgres_select();
            lemma_summarizations_postgres_select_one();
            lemma_summarizations_postgres_delete_typed();
            lemma_summarizations_postgres_delete_every();
            lemma_summarizations_postgres_insert();
        },
        (ReactionTable::Summarizations, DbBackend::Sqlite) => {
            lemma_summarizations_sqlite_select();
            lemma_summarizations_sqlite_select_one();
            lemma_summarizations_sqlite_delete_typed();
            lemma_summarizations_sqlite_delete_every();
            lemma_summarizations_sqlite_insert();
        },
    }
}

} // verus!
