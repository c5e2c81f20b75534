//! Who is subscribed to the automatic recaps of a chat. A pair of chat and user may be
//! stored more than once.

use vstd::prelude::*;

use crate::db::codec::{self, Cell, CodecError, ColumnKind};
use crate::db::models::TelegramChatAutoRecapsSubscriber;
use crate::db::statement::{self, bind, text_value, SqlValue, Statement, StatementModel, ValueModel};
use crate::db::DbBackend;
use crate::text::joined2;

verus! {

/// The columns of a subscriber, as text.
pub const SELECT_COLUMNS: &'static str = "SELECT CAST(id AS TEXT), CAST(chat_id AS TEXT),
        CAST(user_id AS TEXT), CAST(created_at AS TEXT), CAST(updated_at AS TEXT)
     FROM telegram_chat_auto_recaps_subscribers";

pub const INSERT_POSTGRES: &'static str = "INSERT INTO telegram_chat_auto_recaps_subscribers
        (id, chat_id, user_id, created_at, updated_at)
     VALUES (CAST($1 AS UUID), $2, $3, $4, $5)";

pub const INSERT_SQLITE: &'static str = "INSERT INTO telegram_chat_auto_recaps_subscribers
        (id, chat_id, user_id, created_at, updated_at)
     VALUES ($1, $2, $3, $4, $5)";

/// Delete one row; its identifier is compared as text on both backends.
pub const DELETE_ONE_BY_ID: &'static str = "DELETE FROM telegram_chat_auto_recaps_subscribers WHERE CAST(id AS TEXT) = $1";

pub const DELETE_BY_CHAT_ID: &'static str = "DELETE FROM telegram_chat_auto_recaps_subscribers WHERE chat_id = $1";

pub const MIGRATE_CHAT_ID: &'static str = "UPDATE telegram_chat_auto_recaps_subscribers SET chat_id = $1 WHERE chat_id = $2";

/// The insert of a backend.
pub open spec fn insert_sql(backend: DbBackend) -> Seq<char> {
    match backend {
        DbBackend::Postgres => INSERT_POSTGRES@,
        DbBackend::Sqlite => INSERT_SQLITE@,
    }
}

/// The insert of a backend: PostgreSQL casts the identifier, SQLite binds it as it is.
pub fn insert_statement(backend: DbBackend) -> (out: &'static str)
    ensures
        out@ == insert_sql(backend),
{
    match backend {
        DbBackend::Postgres => INSERT_POSTGRES,
        DbBackend::Sqlite => INSERT_SQLITE,
    }
}

/// The query for all subscribers of a chat: in no order, repeated rows included.
pub fn list_query() -> (out: String)
    ensures
        out@ == SELECT_COLUMNS@ + " WHERE chat_id = $1"@,
{
    joined2(SELECT_COLUMNS, " WHERE chat_id = $1")
}

/// All subscribers of a chat.
pub fn list(chat_id: i64) -> (s: Statement)
    ensures
        s@ == statement::bound(
            SELECT_COLUMNS@ + " WHERE chat_id = $1"@,
            seq![
                ValueModel::Int(chat_id),
            ],
        ),
{
    let query: String = list_query();
    bind(
        query.as_str(),
        vec![
            SqlValue::Int(chat_id),
        ],
    )
}

/// One row of a chat and a user, in no order.
pub fn find_one(chat_id: i64, user_id: i64) -> (s: Statement)
    ensures
        s@ == statement::bound(
            SELECT_COLUMNS@ + " WHERE chat_id = $1 AND user_id = $2 LIMIT 1"@,
            seq![
                ValueModel::Int(chat_id),
                ValueModel::Int(user_id),
            ],
        ),
{
    let query: String = joined2(
        SELECT_COLUMNS,
        " WHERE chat_id = $1 AND user_id = $2 LIMIT 1",
    );
    bind(
        query.as_str(),
        vec![
            SqlValue::Int(chat_id),
            SqlValue::Int(user_id),
        ],
    )
}

/// The columns of a subscriber.
pub open spec fn columns() -> Seq<ColumnKind> {
    seq![
        ColumnKind::Text,
        ColumnKind::Integer,
        ColumnKind::Integer,
        ColumnKind::Integer,
        ColumnKind::Integer,
    ]
}

/// What a row holds; the first column that cannot be read is reported.
pub fn decode(row: &Vec<Cell>) -> (r: Result<TelegramChatAutoRecapsSubscriber, CodecError>)
    ensures
        match r {
            Ok(found) => {
                &&& codec::row_fault(row@, columns()) is None
                &&& found.id@ == codec::text_cell(row@, 0)
                &&& found.chat_id == codec::integer_cell(row@, 1)
                &&& found.user_id == codec::integer_cell(row@, 2)
                &&& found.created_at == codec::integer_cell(row@, 3)
                &&& found.updated_at == codec::integer_cell(row@, 4)
            },
            Err(error) => codec::row_fault(row@, columns()) == Some(error),
        },
{
    let kinds: Vec<ColumnKind> = vec![
        ColumnKind::Text,
        ColumnKind::Integer,
        ColumnKind::Integer,
        ColumnKind::Integer,
        ColumnKind::Integer,
    ];
    assert(kinds@ =~= columns());
    match codec::fault_of_row(row, &kinds) {
        Some(error) => Err(error),
        None => {
            assert(kinds@[0] == ColumnKind::Text
                && kinds@[1] == ColumnKind::Integer
                && kinds@[2] == ColumnKind::Integer
                && kinds@[3] == ColumnKind::Integer
                && kinds@[4] == ColumnKind::Integer);
            Ok(
                TelegramChatAutoRecapsSubscriber {
                    id: codec::take_text(row, 0),
                    chat_id: codec::take_integer(row, 1),
                    user_id: codec::take_integer(row, 2),
                    created_at: codec::take_integer(row, 3),
                    updated_at: codec::take_integer(row, 4),
                },
            )
        },
    }
}

/// The insert of a new row.
pub open spec fn new_row(
    backend: DbBackend,
    id: Seq<char>,
    chat_id: i64,
    user_id: i64,
    now: i64,
) -> StatementModel {
    statement::bound(
        insert_sql(backend),
        seq![
            ValueModel::Text(id),
            ValueModel::Int(chat_id),
            ValueModel::Int(user_id),
            ValueModel::Int(now),
            ValueModel::Int(now),
        ],
    )
}

/// Insert a row without looking for one first.
pub fn insert_unchecked(backend: DbBackend, id: &str, chat_id: i64, user_id: i64, now: i64) -> (s:
    Statement)
    ensures
        s@ == new_row(backend, id@, chat_id, user_id, now),
{
    bind(
        insert_statement(backend),
        vec![
            text_value(id),
            SqlValue::Int(chat_id),
            SqlValue::Int(user_id),
            SqlValue::Int(now),
            SqlValue::Int(now),
        ],
    )
}

/// Subscribe, where `found` is what looking for a row gave: nothing is inserted where there
/// is one.
pub fn subscribe(
    backend: DbBackend,
    id: &str,
    chat_id: i64,
    user_id: i64,
    now: i64,
    found: &Option<TelegramChatAutoRecapsSubscriber>,
) -> (r: Option<Statement>)
    ensures
        match r {
            Some(s) => found is None && s@ == new_row(backend, id@, chat_id, user_id, now),
            None => found is Some,
        },
{
    match found {
        Some(_) => None,
        None => Some(insert_unchecked(backend, id, chat_id, user_id, now)),
    }
}

/// Unsubscribe, where `found` is what looking for a row gave: that one row is removed.
pub fn unsubscribe(found: &Option<TelegramChatAutoRecapsSubscriber>) -> (r: Option<Statement>)
    ensures
        match (r, found) {
            (Some(s), Some(row)) => s@ == statement::bound(
                DELETE_ONE_BY_ID@,
                seq![ValueModel::Text(row.id@)],
            ),
            (None, None) => true,
            _ => false,
        },
{
    match found {
        Some(row) => Some(bind(DELETE_ONE_BY_ID, vec![text_value(row.id.as_str())])),
        None => None,
    }
}

/// Remove every subscriber of a chat.
pub fn delete_all_by_chat_id(chat_id: i64) -> (s: Statement)
    ensures
        s@ == statement::bound(
            DELETE_BY_CHAT_ID@,
            seq![
                ValueModel::Int(chat_id),
            ],
        ),
{
    bind(
        DELETE_BY_CHAT_ID,
        vec![
            SqlValue::Int(chat_id),
        ],
    )
}

/// Move every subscriber onto a new chat.
pub fn migrate_chat_id(from_chat_id: i64, to_chat_id: i64) -> (s: Statement)
    ensures
        s@ == statement::bound(
            MIGRATE_CHAT_ID@,
            seq![
                ValueModel::Int(to_chat_id),
                ValueModel::Int(from_chat_id),
            ],
        ),
{
    bind(
        MIGRATE_CHAT_ID,
        vec![
            SqlValue::Int(to_chat_id),
            SqlValue::Int(from_chat_id),
        ],
    )
}

} // verus!
