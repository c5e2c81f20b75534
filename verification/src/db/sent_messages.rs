//! The automatic recaps that were sent.

use vstd::prelude::*;

use crate::db::codec::{self, Cell, CodecError, ColumnKind};
use crate::db::models::{SentMessage, FROM_PLATFORM_TELEGRAM, MESSAGE_TYPE_AUTO_RECAP};
use crate::db::statement::{self, bind, text_value, SqlValue, Statement, ValueModel};
use crate::db::DbBackend;
use crate::text::joined2;

verus! {

/// The columns of a sent message, as text.
pub const SELECT_COLUMNS: &'static str = "SELECT CAST(id AS TEXT), CAST(chat_id AS TEXT),
        CAST(message_id AS TEXT), CAST(text AS TEXT), CAST(is_pinned AS TEXT),
        CAST(from_platform AS TEXT), CAST(message_type AS TEXT),
        CAST(created_at AS TEXT), CAST(updated_at AS TEXT)
     FROM sent_messages";

pub const INSERT_POSTGRES: &'static str = "INSERT INTO sent_messages
        (id, chat_id, message_id, text, is_pinned, from_platform, message_type,
         created_at, updated_at)
     VALUES (CAST($1 AS UUID), $2, $3, $4, $5, $6, $7, $8, $9)";

pub const INSERT_SQLITE: &'static str = "INSERT INTO sent_messages
        (id, chat_id, message_id, text, is_pinned, from_platform, message_type,
         created_at, updated_at)
     VALUES ($1, $2, $3, $4, $5, $6, $7, $8, $9)";

/// The newest pinned message.
pub const LATEST_PINNED: &'static str = " WHERE chat_id = $1 AND is_pinned = $2
             ORDER BY created_at DESC LIMIT 1";

pub const SET_PINNED: &'static str = "UPDATE sent_messages SET is_pinned = $1 WHERE chat_id = $2 AND message_id = $3";

/// The insert of a backend.
pub open spec fn insert_sql(backend: DbBackend) -> Seq<char> {
    match backend {
        DbBackend::Postgres => INSERT_POSTGRES@,
        DbBackend::Sqlite => INSERT_SQLITE@,
    }
}

/// The insert of a backend: PostgreSQL casts the identifier, SQLite binds it as it is.
pub fn insert_statement(backend: DbBackend) -> (out: &'static str)
    ensures
        out@ == insert_sql(backend),
{
    match backend {
        DbBackend::Postgres => INSERT_POSTGRES,
        DbBackend::Sqlite => INSERT_SQLITE,
    }
}

/// The query for the newest pinned message of a chat.
pub fn find_latest_pinned_query() -> (out: String)
    ensures
        out@ == SELECT_COLUMNS@ + LATEST_PINNED@,
{
    joined2(SELECT_COLUMNS, LATEST_PINNED)
}

/// The columns of a sent message.
pub open spec fn columns() -> Seq<ColumnKind> {
    seq![
        ColumnKind::Text,
        ColumnKind::Integer,
        ColumnKind::Integer,
        ColumnKind::Text,
        ColumnKind::Boolean,
        ColumnKind::Integer,
        ColumnKind::Integer,
        ColumnKind::Integer,
        ColumnKind::Integer,
    ]
}

/// What a row holds; the first column that cannot be read is reported.
pub fn decode(row: &Vec<Cell>) -> (r: Result<SentMessage, CodecError>)
    ensures
        match r {
            Ok(found) => {
                &&& codec::row_fault(row@, columns()) is None
                &&& found.id@ == codec::text_cell(row@, 0)
                &&& found.chat_id == codec::integer_cell(row@, 1)
                &&& found.message_id == codec::integer_cell(row@, 2)
                &&& found.text@ == codec::text_cell(row@, 3)
                &&& found.is_pinned == codec::boolean_cell(row@, 4)
                &&& found.from_platform == codec::integer_cell(row@, 5)
                &&& found.message_type == codec::integer_cell(row@, 6)
                &&& found.created_at == codec::integer_cell(row@, 7)
                &&& found.updated_at == codec::integer_cell(row@, 8)
            },
            Err(error) => codec::row_fault(row@, columns()) == Some(error),
        },
{
    let kinds: Vec<ColumnKind> = vec![
        ColumnKind::Text,
        ColumnKind::Integer,
        ColumnKind::Integer,
        ColumnKind::Text,
        ColumnKind::Boolean,
        ColumnKind::Integer,
        ColumnKind::Integer,
        ColumnKind::Integer,
        ColumnKind::Integer,
    ];
    assert(kinds@ =~= columns());
    match codec::fault_of_row(row, &kinds) {
        Some(error) => Err(error),
        None => {
            assert(kinds@[0] == ColumnKind::Text
                && kinds@[1] == ColumnKind::Integer
                && kinds@[2] == ColumnKind::Integer
                && kinds@[3] == ColumnKind::Text
                && kinds@[4] == ColumnKind::Boolean
                && kinds@[5] == ColumnKind::Integer
                && kinds@[6] == ColumnKind::Integer
                && kinds@[7] == ColumnKind::Integer
                && kinds@[8] == ColumnKind::Integer);
            Ok(
                SentMessage {
                    id: codec::take_text(row, 0),
                    chat_id: codec::take_integer(row, 1),
                    message_id: codec::take_integer(row, 2),
                    text: codec::take_text(row, 3),
                    is_pinned: codec::take_boolean(row, 4),
                    from_platform: codec::take_integer(row, 5),
                    message_type: codec::take_integer(row, 6),
                    created_at: codec::take_integer(row, 7),
                    updated_at: codec::take_integer(row, 8),
                },
            )
        },
    }
}

/// Remember one part of an automatic recap.
pub fn create_auto_recap_message(
    backend: DbBackend,
    id: &str,
    chat_id: i64,
    message_id: i64,
    text: &str,
    is_pinned: bool,
    now: i64,
) -> (s: Statement)
    ensures
        s@ == statement::bound(
            insert_sql(backend),
            seq![
                ValueModel::Text(id@),
                ValueModel::Int(chat_id),
                ValueModel::Int(message_id),
                ValueModel::Text(text@),
                ValueModel::Flag(is_pinned),
                ValueModel::Int(FROM_PLATFORM_TELEGRAM),
                ValueModel::Int(MESSAGE_TYPE_AUTO_RECAP),
                ValueModel::Int(now),
                ValueModel::Int(now),
            ],
        ),
{
    bind(
        insert_statement(backend),
        vec![
            text_value(id),
            SqlValue::Int(chat_id),
            SqlValue::Int(message_id),
            text_value(text),
            SqlValue::Flag(is_pinned),
            SqlValue::Int(FROM_PLATFORM_TELEGRAM),
            SqlValue::Int(MESSAGE_TYPE_AUTO_RECAP),
            SqlValue::Int(now),
            SqlValue::Int(now),
        ],
    )
}

/// The newest pinned message of a chat.
pub fn find_latest_pinned(chat_id: i64) -> (s: Statement)
    ensures
        s@ == statement::bound(
            SELECT_COLUMNS@ + LATEST_PINNED@,
            seq![
                ValueModel::Int(chat_id),
                ValueModel::Flag(true),
            ],
        ),
{
    let query: String = find_latest_pinned_query();
    bind(
        query.as_str(),
        vec![
            SqlValue::Int(chat_id),
            SqlValue::Flag(true),
        ],
    )
}

/// Set the pinned mark of every row of a message.
pub fn set_pinned(chat_id: i64, message_id: i64, is_pinned: bool) -> (s: Statement)
    ensures
        s@ == statement::bound(
            SET_PINNED@,
            seq![
                ValueModel::Flag(is_pinned),
                ValueModel::Int(chat_id),
                ValueModel::Int(message_id),
            ],
        ),
{
    bind(
        SET_PINNED,
        vec![
            SqlValue::Flag(is_pinned),
            SqlValue::Int(chat_id),
            SqlValue::Int(message_id),
        ],
    )
}

} // verus!
