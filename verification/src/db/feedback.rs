//! What users think of recaps and summaries. Pressing a button twice takes the reaction
//! back; pressing another replaces it.

use vstd::prelude::*;

use crate::db::codec::{self, Cell, CodecError, ColumnKind};
use crate::db::models::{self, FeedbackReaction, ReactionCounts, ReactionType};
use crate::db::statement::{self, bind, text_value, SqlValue, Statement, ValueModel};
use crate::db::DbBackend;

verus! {

/// Which table holds the reactions.
#[derive(Debug, Clone, Copy, PartialEq, Eq, Structural)]
pub enum ReactionTable {
    /// Reactions to recaps.
    ChatHistoriesRecaps,
    /// Reactions to summaries.
    Summarizations,
}

/// The statements of one table on one backend.
#[derive(Debug, Clone, Copy)]
pub struct Statements {
    pub select_by_chat_and_log: &'static str,
    pub select_one_typed: &'static str,
    pub delete_typed: &'static str,
    pub delete_every_type: &'static str,
    pub insert: &'static str,
}

pub const RECAPS_POSTGRES_SELECT: &'static str = "SELECT CAST(id AS TEXT), CAST(chat_id AS TEXT), CAST(log_id AS TEXT),
        CAST(user_id AS TEXT), CAST(\"type\" AS TEXT),
        CAST(created_at AS TEXT), CAST(updated_at AS TEXT)
     FROM feedback_chat_histories_recaps_reactions
     WHERE chat_id = $1 AND log_id = CAST($2 AS UUID)";

pub const RECAPS_POSTGRES_SELECT_ONE: &'static str = "SELECT CAST(id AS TEXT)
     FROM feedback_chat_histories_recaps_reactions
     WHERE chat_id = $1 AND log_id = CAST($2 AS UUID) AND user_id = $3 AND \"type\" = $4
     LIMIT 1";

pub const RECAPS_POSTGRES_DELETE_TYPED: &'static str = "DELETE FROM feedback_chat_histories_recaps_reactions
     WHERE chat_id = $1 AND log_id = CAST($2 AS UUID) AND user_id = $3 AND \"type\" = $4";

pub const RECAPS_POSTGRES_DELETE_EVERY: &'static str = "DELETE FROM feedback_chat_histories_recaps_reactions
     WHERE chat_id = $1 AND log_id = CAST($2 AS UUID) AND user_id = $3";

pub const RECAPS_POSTGRES_INSERT: &'static str = "INSERT INTO feedback_chat_histories_recaps_reactions
        (id, chat_id, log_id, user_id, \"type\", created_at, updated_at)
     VALUES (CAST($1 AS UUID), $2, CAST($3 AS UUID), $4, $5, $6, $7)";

pub const RECAPS_SQLITE_SELECT: &'static str = "SELECT CAST(id AS TEXT), CAST(chat_id AS TEXT), CAST(log_id AS TEXT),
        CAST(user_id AS TEXT), CAST(\"type\" AS TEXT),
        CAST(created_at AS TEXT), CAST(updated_at AS TEXT)
     FROM feedback_chat_histories_recaps_reactions
     WHERE chat_id = $1 AND log_id = $2";

pub const RECAPS_SQLITE_SELECT_ONE: &'static str = "SELECT CAST(id AS TEXT)
     FROM feedback_chat_histories_recaps_reactions
     WHERE chat_id = $1 AND log_id = $2 AND user_id = $3 AND \"type\" = $4
     LIMIT 1";

pub const RECAPS_SQLITE_DELETE_TYPED: &'static str = "DELETE FROM feedback_chat_histories_recaps_reactions
     WHERE chat_id = $1 AND log_id = $2 AND user_id = $3 AND \"type\" = $4";

pub const RECAPS_SQLITE_DELETE_EVERY: &'static str = "DELETE FROM feedback_chat_histories_recaps_reactions
     WHERE chat_id = $1 AND log_id = $2 AND user_id = $3";

pub const RECAPS_SQLITE_INSERT: &'static str = "INSERT INTO feedback_chat_histories_recaps_reactions
        (id, chat_id, log_id, user_id, \"type\", created_at, updated_at)
     VALUES ($1, $2, $3, $4, $5, $6, $7)";

pub const SUMMARIZATIONS_POSTGRES_SELECT: &'static str = "SELECT CAST(id AS TEXT), CAST(chat_id AS TEXT), CAST(log_id AS TEXT),
        CAST(user_id AS TEXT), CAST(\"type\" AS TEXT),
        CAST(created_at AS TEXT), CAST(updated_at AS TEXT)
     FROM feedback_summarizations_reactions
     WHERE chat_id = $1 AND log_id = CAST($2 AS UUID)";

pub const SUMMARIZATIONS_POSTGRES_SELECT_ONE: &'static str = "SELECT CAST(id AS TEXT)
     FROM feedback_summarizations_reactions
     WHERE chat_id = $1 AND log_id = CAST($2 AS UUID) AND user_id = $3 AND \"type\" = $4
     LIMIT 1";

pub const SUMMARIZATIONS_POSTGRES_DELETE_TYPED: &'static str = "DELETE FROM feedback_summarizations_reactions
     WHERE chat_id = $1 AND log_id = CAST($2 AS UUID) AND user_id = $3 AND \"type\" = $4";

pub const SUMMARIZATIONS_POSTGRES_DELETE_EVERY: &'static str = "DELETE FROM feedback_summarizations_reactions
     WHERE chat_id = $1 AND log_id = CAST($2 AS UUID) AND user_id = $3";

pub const SUMMARIZATIONS_POSTGRES_INSERT: &'static str = "INSERT INTO feedback_summarizations_reactions
        (id, chat_id, log_id, user_id, \"type\", created_at, updated_at)
     VALUES (CAST($1 AS UUID), $2, CAST($3 AS UUID), $4, $5, $6, $7)";

pub const SUMMARIZATIONS_SQLITE_SELECT: &'static str = "SELECT CAST(id AS TEXT), CAST(chat_id AS TEXT), CAST(log_id AS TEXT),
        CAST(user_id AS TEXT), CAST(\"type\" AS TEXT),
        CAST(created_at AS TEXT), CAST(updated_at AS TEXT)
     FROM feedback_summarizations_reactions
     WHERE chat_id = $1 AND log_id = $2";

pub const SUMMARIZATIONS_SQLITE_SELECT_ONE: &'static str = "SELECT CAST(id AS TEXT)
     FROM feedback_summarizations_reactions
     WHERE chat_id = $1 AND log_id = $2 AND user_id = $3 AND \"type\" = $4
     LIMIT 1";

pub const SUMMARIZATIONS_SQLITE_DELETE_TYPED: &'static str = "DELETE FROM feedback_summarizations_reactions
     WHERE chat_id = $1 AND log_id = $2 AND user_id = $3 AND \"type\" = $4";

pub const SUMMARIZATIONS_SQLITE_DELETE_EVERY: &'static str = "DELETE FROM feedback_summarizations_reactions
     WHERE chat_id = $1 AND log_id = $2 AND user_id = $3";

pub const SUMMARIZATIONS_SQLITE_INSERT: &'static str = "INSERT INTO feedback_summarizations_reactions
        (id, chat_id, log_id, user_id, \"type\", created_at, updated_at)
     VALUES ($1, $2, $3, $4, $5, $6, $7)";

/// The statements of a table on a backend.
pub open spec fn statements_of(table: ReactionTable, backend: DbBackend) -> Statements {
    match (table, backend) {
        (ReactionTable::ChatHistoriesRecaps, DbBackend::Postgres) => Statements {
            select_by_chat_and_log: RECAPS_POSTGRES_SELECT,
            select_one_typed: RECAPS_POSTGRES_SELECT_ONE,
            delete_typed: RECAPS_POSTGRES_DELETE_TYPED,
            delete_every_type: RECAPS_POSTGRES_DELETE_EVERY,
            insert: RECAPS_POSTGRES_INSERT,
        },
        (ReactionTable::ChatHistoriesRecaps, DbBackend::Sqlite) => Statements {
            select_by_chat_and_log: RECAPS_SQLITE_SELECT,
            select_one_typed: RECAPS_SQLITE_SELECT_ONE,
            delete_typed: RECAPS_SQLITE_DELETE_TYPED,
            delete_every_type: RECAPS_SQLITE_DELETE_EVERY,
            insert: RECAPS_SQLITE_INSERT,
        },
        (ReactionTable::Summarizations, DbBackend::Postgres) => Statements {
            select_by_chat_and_log: SUMMARIZATIONS_POSTGRES_SELECT,
            select_one_typed: SUMMARIZATIONS_POSTGRES_SELECT_ONE,
            delete_typed: SUMMARIZATIONS_POSTGRES_DELETE_TYPED,
            delete_every_type: SUMMARIZATIONS_POSTGRES_DELETE_EVERY,
            insert: SUMMARIZATIONS_POSTGRES_INSERT,
        },
        (ReactionTable::Summarizations, DbBackend::Sqlite) => Statements {
            select_by_chat_and_log: SUMMARIZATIONS_SQLITE_SELECT,
            select_one_typed: SUMMARIZATIONS_SQLITE_SELECT_ONE,
            delete_typed: SUMMARIZATIONS_SQLITE_DELETE_TYPED,
            delete_every_type: SUMMARIZATIONS_SQLITE_DELETE_EVERY,
            insert: SUMMARIZATIONS_SQLITE_INSERT,
        },
    }
}

impl ReactionTable {
    /// The statements of the table on a backend.
    pub fn statements(self, backend: DbBackend) -> (out: Statements)
        ensures
            out == statements_of(self, backend),
    {
        match (self, backend) {
            (ReactionTable::ChatHistoriesRecaps, DbBackend::Postgres) => Statements {
                select_by_chat_and_log: RECAPS_POSTGRES_SELECT,
                select_one_typed: RECAPS_POSTGRES_SELECT_ONE,
                delete_typed: RECAPS_POSTGRES_DELETE_TYPED,
                delete_every_type: RECAPS_POSTGRES_DELETE_EVERY,
                insert: RECAPS_POSTGRES_INSERT,
            },
            (ReactionTable::ChatHistoriesRecaps, DbBackend::Sqlite) => Statements {
                select_by_chat_and_log: RECAPS_SQLITE_SELECT,
                select_one_typed: RECAPS_SQLITE_SELECT_ONE,
                delete_typed: RECAPS_SQLITE_DELETE_TYPED,
                delete_every_type: RECAPS_SQLITE_DELETE_EVERY,
                insert: RECAPS_SQLITE_INSERT,
            },
            (ReactionTable::Summarizations, DbBackend::Postgres) => Statements {
                select_by_chat_and_log: SUMMARIZATIONS_POSTGRES_SELECT,
                select_one_typed: SUMMARIZATIONS_POSTGRES_SELECT_ONE,
                delete_typed: SUMMARIZATIONS_POSTGRES_DELETE_TYPED,
                delete_every_type: SUMMARIZATIONS_POSTGRES_DELETE_EVERY,
                insert: SUMMARIZATIONS_POSTGRES_INSERT,
            },
            (ReactionTable::Summarizations, DbBackend::Sqlite) => Statements {
                select_by_chat_and_log: SUMMARIZATIONS_SQLITE_SELECT,
                select_one_typed: SUMMARIZATIONS_SQLITE_SELECT_ONE,
                delete_typed: SUMMARIZATIONS_SQLITE_DELETE_TYPED,
                delete_every_type: SUMMARIZATIONS_SQLITE_DELETE_EVERY,
                insert: SUMMARIZATIONS_SQLITE_INSERT,
            },
        }
    }
}

/// The columns of a reaction.
pub open spec fn columns() -> Seq<ColumnKind> {
    seq![
        ColumnKind::Text,
        ColumnKind::Integer,
        ColumnKind::Text,
        ColumnKind::Integer,
        ColumnKind::Text,
        ColumnKind::Integer,
        ColumnKind::Integer,
    ]
}

/// What a row holds; the first column that cannot be read is reported.
pub fn decode(row: &Vec<Cell>) -> (r: Result<FeedbackReaction, CodecError>)
    ensures
        match r {
            Ok(found) => {
                &&& codec::row_fault(row@, columns()) is None
                &&& found.id@ == codec::text_cell(row@, 0)
                &&& found.chat_id == codec::integer_cell(row@, 1)
                &&& found.log_id@ == codec::text_cell(row@, 2)
                &&& found.user_id == codec::integer_cell(row@, 3)
                &&& found.reaction_type@ == codec::text_cell(row@, 4)
                &&& found.created_at == codec::integer_cell(row@, 5)
                &&& found.updated_at == codec::integer_cell(row@, 6)
            },
            Err(error) => codec::row_fault(row@, columns()) == Some(error),
        },
{
    let kinds: Vec<ColumnKind> = vec![
        ColumnKind::Text,
        ColumnKind::Integer,
        ColumnKind::Text,
        ColumnKind::Integer,
        ColumnKind::Text,
        ColumnKind::Integer,
        ColumnKind::Integer,
    ];
    assert(kinds@ =~= columns());
    match codec::fault_of_row(row, &kinds) {
        Some(error) => Err(error),
        None => {
            assert(kinds@[0] == ColumnKind::Text
                && kinds@[1] == ColumnKind::Integer
                && kinds@[2] == ColumnKind::Text
                && kinds@[3] == ColumnKind::Integer
                && kinds@[4] == ColumnKind::Text
                && kinds@[5] == ColumnKind::Integer
                && kinds@[6] == ColumnKind::Integer);
            Ok(
                FeedbackReaction {
                    id: codec::take_text(row, 0),
                    chat_id: codec::take_integer(row, 1),
                    log_id: codec::take_text(row, 2),
                    user_id: codec::take_integer(row, 3),
                    reaction_type: codec::take_text(row, 4),
                    created_at: codec::take_integer(row, 5),
                    updated_at: codec::take_integer(row, 6),
                },
            )
        },
    }
}

/// The reaction of a user to what is logged under an identifier. Only identifiers that
/// were read as such come here.
pub struct Reacting<'a> {
    pub backend: DbBackend,
    pub table: ReactionTable,
    pub chat_id: i64,
    pub log_id: &'a str,
    pub user_id: i64,
    pub reaction: ReactionType,
}

/// All reactions to what is logged under an identifier: in no order, repeated rows
/// included.
pub fn list(backend: DbBackend, table: ReactionTable, chat_id: i64, log_id: &str) -> (s: Statement)
    ensures
        s@ == statement::bound(
            statements_of(table, backend).select_by_chat_and_log@,
            seq![ValueModel::Int(chat_id), ValueModel::Text(log_id@)],
        ),
{
    bind(
        table.statements(backend).select_by_chat_and_log,
        vec![SqlValue::Int(chat_id), text_value(log_id)],
    )
}

// ---------------------------------------------------------------------------
// Counting
// ---------------------------------------------------------------------------

/// How many of the first `n` rows hold a reaction.
pub open spec fn tally(rows: Seq<FeedbackReaction>, reaction: ReactionType, n: int) -> nat
    decreases n,
{
    if n <= 0 || n > rows.len() {
        0
    } else {
        tally(rows, reaction, n - 1) + if models::reaction_of(rows[n - 1].reaction_type@) == Some(
            reaction,
        ) {
            1nat
        } else {
            0nat
        }
    }
}

/// The counters of the buttons: every row counts, and rows without a known reaction count
/// nowhere.
pub fn counts(rows: &Vec<FeedbackReaction>) -> (r: ReactionCounts)
    ensures
        r.up_votes == tally(rows@, ReactionType::UpVote, rows@.len() as int),
        r.down_votes == tally(rows@, ReactionType::DownVote, rows@.len() as int),
        r.lmao == tally(rows@, ReactionType::Lmao, rows@.len() as int),
        r.up_votes + r.down_votes + r.lmao <= rows@.len(),
{
    let mut r = ReactionCounts { up_votes: 0, down_votes: 0, lmao: 0 };
    let mut i: usize = 0;
    while i < rows.len()
        invariant
            i <= rows.len(),
            r.up_votes == tally(rows@, ReactionType::UpVote, i as int),
            r.down_votes == tally(rows@, ReactionType::DownVote, i as int),
            r.lmao == tally(rows@, ReactionType::Lmao, i as int),
            r.up_votes + r.down_votes + r.lmao <= i,
        decreases rows.len() - i,
    {
        match rows[i].reaction() {
            Some(ReactionType::UpVote) => {
                r.up_votes = r.up_votes + 1;
            },
            Some(ReactionType::DownVote) => {
                r.down_votes = r.down_votes + 1;
            },
            Some(ReactionType::Lmao) => {
                r.lmao = r.lmao + 1;
            },
            _ => {},
        }
        i = i + 1;
    }
    r
}

// ---------------------------------------------------------------------------
// Reacting
// ---------------------------------------------------------------------------

/// What is done to the table, one after the other and each on its own.
#[derive(Debug, Clone, Copy, PartialEq, Eq, Structural)]
pub enum ReactionCommand {
    /// Remove this reaction of the user.
    DeleteTyped,
    /// Remove every reaction of the user.
    DeleteEvery,
    /// Add this reaction of the user.
    Insert,
    Done,
}

/// How far a reaction has come: how many rows the first removal took, and how many of the
/// other commands were done.
#[derive(Debug, Clone, Copy, PartialEq, Eq, Structural)]
pub struct ReactionProgress {
    pub removed: Option<u64>,
    pub cleared: bool,
    pub inserted: bool,
}

/// What is done next: where the same reaction was removed, that was all.
pub open spec fn next_command(progress: ReactionProgress) -> ReactionCommand {
    match progress.removed {
        None => ReactionCommand::DeleteTyped,
        Some(removed) => if removed > 0 {
            ReactionCommand::Done
        } else if !progress.cleared {
            ReactionCommand::DeleteEvery
        } else if !progress.inserted {
            ReactionCommand::Insert
        } else {
            ReactionCommand::Done
        },
    }
}

/// What is done next for a reaction.
pub fn react_step(progress: ReactionProgress) -> (command: ReactionCommand)
    ensures
        command == next_command(progress),
{
    match progress.removed {
        None => ReactionCommand::DeleteTyped,
        Some(removed) => if removed > 0 {
            ReactionCommand::Done
        } else if !progress.cleared {
            ReactionCommand::DeleteEvery
        } else if !progress.inserted {
            ReactionCommand::Insert
        } else {
            ReactionCommand::Done
        },
    }
}

/// The statement that removes this reaction of the user.
pub fn delete_typed(reacting: &Reacting<'_>) -> (s: Statement)
    ensures
        s@ == statement::bound(
            statements_of(reacting.table, reacting.backend).delete_typed@,
            seq![
                ValueModel::Int(reacting.chat_id),
                ValueModel::Text(reacting.log_id@),
                ValueModel::Int(reacting.user_id),
                ValueModel::Text(models::reaction_name(reacting.reaction)),
            ],
        ),
{
    bind(
        reacting.table.statements(reacting.backend).delete_typed,
        vec![
            SqlValue::Int(reacting.chat_id),
            text_value(reacting.log_id),
            SqlValue::Int(reacting.user_id),
            text_value(reacting.reaction.as_stored()),
        ],
    )
}

/// The statement that removes every reaction of the user.
pub fn delete_every_type(reacting: &Reacting<'_>) -> (s: Statement)
    ensures
        s@ == statement::bound(
            statements_of(reacting.table, reacting.backend).delete_every_type@,
            seq![
                ValueModel::Int(reacting.chat_id),
                ValueModel::Text(reacting.log_id@),
                ValueModel::Int(reacting.user_id),
            ],
        ),
{
    bind(
        reacting.table.statements(reacting.backend).delete_every_type,
        vec![
            SqlValue::Int(reacting.chat_id),
            text_value(reacting.log_id),
            SqlValue::Int(reacting.user_id),
        ],
    )
}

/// The statement that adds this reaction of the user.
pub fn insert_unchecked(reacting: &Reacting<'_>, id: &str, now: i64) -> (s: Statement)
    ensures
        s@ == statement::bound(
            statements_of(reacting.table, reacting.backend).insert@,
            seq![
                ValueModel::Text(id@),
                ValueModel::Int(reacting.chat_id),
                ValueModel::Text(reacting.log_id@),
                ValueModel::Int(reacting.user_id),
                ValueModel::Text(models::reaction_name(reacting.reaction)),
                ValueModel::Int(now),
                ValueModel::Int(now),
            ],
        ),
{
    bind(
        reacting.table.statements(reacting.backend).insert,
        vec![
            text_value(id),
            SqlValue::Int(reacting.chat_id),
            text_value(reacting.log_id),
            SqlValue::Int(reacting.user_id),
            text_value(reacting.reaction.as_stored()),
            SqlValue::Int(now),
            SqlValue::Int(now),
        ],
    )
}

/// The statement that looks for this reaction of a user to a summary.
pub fn has_summarization_reacted(
    backend: DbBackend,
    chat_id: i64,
    log_id: &str,
    user_id: i64,
    reaction: ReactionType,
) -> (s: Statement)
    ensures
        s@ == statement::bound(
            statements_of(ReactionTable::Summarizations, backend).select_one_typed@,
            seq![
                ValueModel::Int(chat_id),
                ValueModel::Text(log_id@),
                ValueModel::Int(user_id),
                ValueModel::Text(models::reaction_name(reaction)),
            ],
        ),
{
    bind(
        ReactionTable::Summarizations.statements(backend).select_one_typed,
        vec![
            SqlValue::Int(chat_id),
            text_value(log_id),
            SqlValue::Int(user_id),
            text_value(reaction.as_stored()),
        ],
    )
}

// ---------------------------------------------------------------------------
// What reacting comes to
// ---------------------------------------------------------------------------

/// How many rows a user has with a reaction.
pub open spec fn votes(rows: Seq<(i64, ReactionType)>, user: i64, reaction: ReactionType) -> nat
    decreases rows.len(),
{
    if rows.len() == 0 {
        0
    } else {
        votes(rows.drop_last(), user, reaction) + if rows.last() == (user, reaction) {
            1nat
        } else {
            0nat
        }
    }
}

/// The rows without one reaction of a user, or without all of them.
pub open spec fn removed(
    rows: Seq<(i64, ReactionType)>,
    user: i64,
    reaction: Option<ReactionType>,
) -> Seq<(i64, ReactionType)>
    decreases rows.len(),
{
    if rows.len() == 0 {
        rows
    } else {
        let rest = removed(rows.drop_last(), user, reaction);
        if rows.last().0 == user && (reaction is None || reaction == Some(rows.last().1)) {
            rest
        } else {
            rest.push(rows.last())
        }
    }
}

/// The rows after the commands that follow `progress` were done.
pub open spec fn after_commands(
    rows: Seq<(i64, ReactionType)>,
    user: i64,
    reaction: ReactionType,
    progress: ReactionProgress,
    fuel: nat,
) -> Seq<(i64, ReactionType)>
    decreases fuel,
{
    if fuel == 0 {
        rows
    } else {
        match next_command(progress) {
            ReactionCommand::DeleteTyped => after_commands(
                removed(rows, user, Some(reaction)),
                user,
                reaction,
                ReactionProgress {
                    removed: Some(
                        if votes(rows, user, reaction) > 0 {
                            1
                        } else {
                            0
                        },
                    ),
                    ..progress
                },
                (fuel - 1) as nat,
            ),
            ReactionCommand::DeleteEvery => after_commands(
                removed(rows, user, None),
                user,
                reaction,
                ReactionProgress { cleared: true, ..progress },
                (fuel - 1) as nat,
            ),
            ReactionCommand::Insert => after_commands(
                rows.push((user, reaction)),
                user,
                reaction,
                ReactionProgress { inserted: true, ..progress },
                (fuel - 1) as nat,
            ),
            ReactionCommand::Done => rows,
        }
    }
}

/// The rows after a user reacted.
pub open spec fn reacted(
    rows: Seq<(i64, ReactionType)>,
    user: i64,
    reaction: ReactionType,
) -> Seq<(i64, ReactionType)> {
    after_commands(
        rows,
        user,
        reaction,
        ReactionProgress { removed: None, cleared: false, inserted: false },
        4,
    )
}

proof fn lemma_removed(
    rows: Seq<(i64, ReactionType)>,
    user: i64,
    reaction: Option<ReactionType>,
    other: i64,
    kind: ReactionType,
)
    ensures
        votes(removed(rows, user, reaction), other, kind) == if other == user && (reaction is None
            || reaction == Some(kind)) {
            0
        } else {
            votes(rows, other, kind)
        },
    decreases rows.len(),
{
    if rows.len() > 0 {
        lemma_removed(rows.drop_last(), user, reaction, other, kind);
        let rest = removed(rows.drop_last(), user, reaction);
        assert(rest.push(rows.last()).drop_last() =~= rest);
    }
}

/// After a user reacted, everyone else's reactions are as they were; the user has taken the
/// reaction back where it was there, and otherwise has it once and nothing else.
pub proof fn lemma_reaction_toggles(
    rows: Seq<(i64, ReactionType)>,
    user: i64,
    reaction: ReactionType,
    other: i64,
    kind: ReactionType,
)
    ensures
        votes(reacted(rows, user, reaction), other, kind) == if other != user {
            votes(rows, other, kind)
        } else if votes(rows, user, reaction) > 0 {
            if kind == reaction {
                0
            } else {
                votes(rows, user, kind)
            }
        } else {
            if kind == reaction {
                1
            } else {
                0
            }
        },
{
    reveal_with_fuel(after_commands, 5);
    let typed = removed(rows, user, Some(reaction));
    lemma_removed(rows, user, Some(reaction), other, kind);
    let cleared = removed(typed, user, None);
    lemma_removed(typed, user, None, other, kind);
    assert(cleared.push((user, reaction)).drop_last() =~= cleared);
    assert(cleared.push((user, reaction)).last() == (user, reaction));
}

/// Reacting twice with the same button leaves a user without reactions, unless there were
/// others beside it.
pub proof fn lemma_reacting_twice(
    rows: Seq<(i64, ReactionType)>,
    user: i64,
    reaction: ReactionType,
    kind: ReactionType,
)
    requires
        votes(rows, user, reaction) == 0,
    ensures
        votes(reacted(reacted(rows, user, reaction), user, reaction), user, kind) == 0,
{
    let once = reacted(rows, user, reaction);
    lemma_reaction_toggles(rows, user, reaction, user, reaction);
    lemma_reaction_toggles(rows, user, reaction, user, kind);
    lemma_reaction_toggles(once, user, reaction, user, kind);
}

} // verus!
