//! The messages of chats. A message is stored with a kind and with the second it was
//! created, or with all that is known of it and the millisecond it was sent: rows of both
//! shapes live in one table.

use vstd::prelude::*;

use crate::db::codec::{self, Cell, CodecError, ColumnKind};
use crate::db::models::{
    MessageKind, NewTelegramChatHistory, TelegramChatHistory, CHAT_TYPE_SUPERGROUP,
    FROM_PLATFORM_TELEGRAM,
};
use crate::db::models;
use crate::db::statement::{
    self, bind, optional_int, optional_text, text_value, SqlValue, Statement, StatementModel,
    ValueModel,
};
use crate::text::{self, joined2, joined3};

verus! {

pub const INSERT_MESSAGE: &'static str = "INSERT INTO chat_histories (chat_id, message_id, from_id, from_full_name, from_username, kind, text, media_url, created_at)
         VALUES ($1, $2, $3, $4, $5, $6, $7, $8, $9)";

pub const RECENT_MESSAGES: &'static str = "SELECT id, chat_id, message_id, COALESCE(from_id, 0) as from_id,
                COALESCE(from_full_name, '') as from_full_name,
                COALESCE(from_username, '') as from_username,
                kind,
                COALESCE(text, '') as text,
                COALESCE(media_url, '') as media_url,
                created_at
         FROM chat_histories WHERE chat_id = $1 ORDER BY created_at DESC LIMIT $2";

pub const RECAP_ENABLED: &'static str = "SELECT CASE WHEN enabled THEN 1 ELSE 0 END
         FROM recap_configs
         WHERE chat_id = $1
         LIMIT 1";

/// The millisecond at which a row was sent, whichever shape it has.
pub const NORMALIZED_MILLIS: &'static str = "(CASE WHEN chatted_at <> 0 THEN chatted_at ELSE created_at * 1000 END)";

pub const MESSAGES_SINCE_FILTER: &'static str = "SELECT id, chat_id, message_id, COALESCE(from_id, 0) as from_id,
                COALESCE(from_full_name, '') as from_full_name,
                COALESCE(from_username, '') as from_username,
                kind,
                COALESCE(text, '') as text,
                COALESCE(media_url, '') as media_url,
                created_at
         FROM chat_histories
         WHERE chat_id = $1 AND ";

pub const MESSAGES_SINCE_ORDER: &'static str = " >= $2
         ORDER BY ";

pub const SELECT_COLUMNS: &'static str = "SELECT CAST(id AS TEXT), CAST(chat_id AS TEXT),
        CAST(chat_type AS TEXT), CAST(chat_title AS TEXT), CAST(message_id AS TEXT),
        CAST(user_id AS TEXT), CAST(username AS TEXT), CAST(full_name AS TEXT),
        CAST(COALESCE(text, '') AS TEXT),
        CAST(replied_to_message_id AS TEXT), CAST(replied_to_user_id AS TEXT),
        CAST(replied_to_full_name AS TEXT), CAST(replied_to_username AS TEXT),
        CAST(replied_to_text AS TEXT), CAST(replied_to_chat_type AS TEXT),
        CAST(chatted_at AS TEXT), CAST(embedded AS TEXT), CAST(from_platform AS TEXT),
        CAST(created_at AS TEXT), CAST(updated_at AS TEXT)
     FROM chat_histories";

pub const INSERT: &'static str = "INSERT INTO chat_histories
        (chat_id, chat_type, chat_title, message_id, user_id, username, full_name,
         text, replied_to_message_id, replied_to_user_id, replied_to_full_name,
         replied_to_username, replied_to_text, replied_to_chat_type, chatted_at,
         embedded, from_platform, created_at, updated_at, kind)
     VALUES ($1, $2, $3, $4, $5, $6, $7, $8, $9, $10, $11, $12, $13, $14, $15,
             $16, $17, $18, $19, $20)";

pub const UPDATE_TEXT: &'static str = "UPDATE chat_histories SET text = $1 WHERE chat_id = $2 AND message_id = $3";

pub const DELETE_BY_CHAT_ID: &'static str = "DELETE FROM chat_histories WHERE chat_id = $1";

pub const MIGRATE_CHAT_ID: &'static str = "UPDATE chat_histories SET chat_id = $1, chat_type = $2 WHERE chat_id = $3";

/// A message as it is stored with a kind and the second it was created.
pub struct PlainMessage {
    pub chat_id: i64,
    pub message_id: i64,
    pub from_id: Option<i64>,
    pub from_full_name: Option<String>,
    pub from_username: Option<String>,
    pub kind: MessageKind,
    pub text: Option<String>,
    pub media_url: Option<String>,
    /// Unix seconds.
    pub created_at: i64,
}

/// Store a message with a kind.
pub fn insert_message(message: &PlainMessage) -> (s: Statement)
    ensures
        s@ == statement::bound(
            INSERT_MESSAGE@,
            seq![
                ValueModel::Int(message.chat_id),
                ValueModel::Int(message.message_id),
                statement::int_or_none(message.from_id),
                statement::text_or_none(text::viewed(message.from_full_name)),
                statement::text_or_none(text::viewed(message.from_username)),
                ValueModel::Text(models::kind_name(message.kind)),
                statement::text_or_none(text::viewed(message.text)),
                statement::text_or_none(text::viewed(message.media_url)),
                ValueModel::Int(message.created_at),
            ],
        ),
{
    bind(
        INSERT_MESSAGE,
        vec![
            SqlValue::Int(message.chat_id),
            SqlValue::Int(message.message_id),
            optional_int(message.from_id),
            optional_text(&message.from_full_name),
            optional_text(&message.from_username),
            text_value(message.kind.as_str()),
            optional_text(&message.text),
            optional_text(&message.media_url),
            SqlValue::Int(message.created_at),
        ],
    )
}

/// The newest messages of a chat.
pub fn recent_messages(chat_id: i64, limit: i64) -> (s: Statement)
    ensures
        s@ == statement::bound(
            RECENT_MESSAGES@,
            seq![
                ValueModel::Int(chat_id),
                ValueModel::Int(limit),
            ],
        ),
{
    bind(
        RECENT_MESSAGES,
        vec![
            SqlValue::Int(chat_id),
            SqlValue::Int(limit),
        ],
    )
}

/// Whether recaps are enabled in a chat, as a number.
pub fn recap_enabled_query(chat_id: i64) -> (s: Statement)
    ensures
        s@ == statement::bound(
            RECAP_ENABLED@,
            seq![
                ValueModel::Int(chat_id),
            ],
        ),
{
    bind(
        RECAP_ENABLED,
        vec![
            SqlValue::Int(chat_id),
        ],
    )
}

/// Whether recaps are enabled, where `found` is the number that was found: a chat without
/// one has them enabled.
pub fn is_recap_enabled(found: Option<i64>) -> (r: bool)
    ensures
        r == match found {
            Some(enabled) => enabled != 0,
            None => true,
        },
{
    match found {
        Some(enabled) => enabled != 0,
        None => true,
    }
}

/// The query for the messages of a chat since an instant, of both shapes in one order.
pub open spec fn messages_since() -> Seq<char> {
    MESSAGES_SINCE_FILTER@ + NORMALIZED_MILLIS@ + MESSAGES_SINCE_ORDER@ + NORMALIZED_MILLIS@
        + " ASC"@
}

/// The query for the messages of a chat since an instant.
pub fn messages_since_query() -> (out: String)
    ensures
        out@ == messages_since(),
{
    let filtered: String = joined3(MESSAGES_SINCE_FILTER, NORMALIZED_MILLIS, MESSAGES_SINCE_ORDER);
    joined3(filtered.as_str(), NORMALIZED_MILLIS, " ASC")
}

/// The messages of the last hours.
pub fn messages_since_hours(chat_id: i64, hours: i64, now_unix_millis: i64) -> (s: Statement)
    requires
        i64::MIN <= hours * 3_600_000 <= i64::MAX,
        i64::MIN <= now_unix_millis - hours * 3_600_000 <= i64::MAX,
    ensures
        s@ == statement::bound(
            messages_since(),
            seq![
                ValueModel::Int(chat_id),
                ValueModel::Int((now_unix_millis - hours * 3_600_000) as i64),
            ],
        ),
{
    let query: String = messages_since_query();
    let since: i64 = now_unix_millis - hours * 3_600_000;
    bind(query.as_str(), vec![SqlValue::Int(chat_id), SqlValue::Int(since)])
}

/// The columns of a message.
pub open spec fn columns() -> Seq<ColumnKind> {
    seq![
        ColumnKind::Integer,
        ColumnKind::Integer,
        ColumnKind::Text,
        ColumnKind::Text,
        ColumnKind::Integer,
        ColumnKind::Integer,
        ColumnKind::Text,
        ColumnKind::Text,
        ColumnKind::Text,
        ColumnKind::Integer,
        ColumnKind::Integer,
        ColumnKind::Text,
        ColumnKind::Text,
        ColumnKind::Text,
        ColumnKind::Text,
        ColumnKind::Integer,
        ColumnKind::Boolean,
        ColumnKind::Integer,
        ColumnKind::Integer,
        ColumnKind::Integer,
    ]
}

/// What a row holds; the first column that cannot be read is reported.
pub fn decode(row: &Vec<Cell>) -> (r: Result<TelegramChatHistory, CodecError>)
    ensures
        match r {
            Ok(found) => {
                &&& codec::row_fault(row@, columns()) is None
                &&& found.id == codec::integer_cell(row@, 0)
                &&& found.chat_id == codec::integer_cell(row@, 1)
                &&& found.chat_type@ == codec::text_cell(row@, 2)
                &&& found.chat_title@ == codec::text_cell(row@, 3)
                &&& found.message_id == codec::integer_cell(row@, 4)
                &&& found.user_id == codec::integer_cell(row@, 5)
                &&& found.username@ == codec::text_cell(row@, 6)
                &&& found.full_name@ == codec::text_cell(row@, 7)
                &&& found.text@ == codec::text_cell(row@, 8)
                &&& found.replied_to_message_id == codec::integer_cell(row@, 9)
                &&& found.replied_to_user_id == codec::integer_cell(row@, 10)
                &&& found.replied_to_full_name@ == codec::text_cell(row@, 11)
                &&& found.replied_to_username@ == codec::text_cell(row@, 12)
                &&& found.replied_to_text@ == codec::text_cell(row@, 13)
                &&& found.replied_to_chat_type@ == codec::text_cell(row@, 14)
                &&& found.chatted_at == codec::integer_cell(row@, 15)
                &&& found.embedded == codec::boolean_cell(row@, 16)
                &&& found.from_platform == codec::integer_cell(row@, 17)
                &&& found.created_at == codec::integer_cell(row@, 18)
                &&& found.updated_at == codec::integer_cell(row@, 19)
            },
            Err(error) => codec::row_fault(row@, columns()) == Some(error),
        },
{
    let kinds: Vec<ColumnKind> = vec![
        ColumnKind::Integer,
        ColumnKind::Integer,
        ColumnKind::Text,
        ColumnKind::Text,
        ColumnKind::Integer,
        ColumnKind::Integer,
        ColumnKind::Text,
        ColumnKind::Text,
        ColumnKind::Text,
        ColumnKind::Integer,
        ColumnKind::Integer,
        ColumnKind::Text,
        ColumnKind::Text,
        ColumnKind::Text,
        ColumnKind::Text,
        ColumnKind::Integer,
        ColumnKind::Boolean,
        ColumnKind::Integer,
        ColumnKind::Integer,
        ColumnKind::Integer,
    ];
    assert(kinds@ =~= columns());
    match codec::fault_of_row(row, &kinds) {
        Some(error) => Err(error),
        None => {
            assert(kinds@[0] == ColumnKind::Integer
                && kinds@[1] == ColumnKind::Integer
                && kinds@[2] == ColumnKind::Text
                && kinds@[3] == ColumnKind::Text
                && kinds@[4] == ColumnKind::Integer
                && kinds@[5] == ColumnKind::Integer
                && kinds@[6] == ColumnKind::Text
                && kinds@[7] == ColumnKind::Text
                && kinds@[8] == ColumnKind::Text
                && kinds@[9] == ColumnKind::Integer
                && kinds@[10] == ColumnKind::Integer
                && kinds@[11] == ColumnKind::Text
                && kinds@[12] == ColumnKind::Text
                && kinds@[13] == ColumnKind::Text
                && kinds@[14] == ColumnKind::Text
                && kinds@[15] == ColumnKind::Integer
                && kinds@[16] == ColumnKind::Boolean
                && kinds@[17] == ColumnKind::Integer
                && kinds@[18] == ColumnKind::Integer
                && kinds@[19] == ColumnKind::Integer);
            Ok(
                TelegramChatHistory {
                    id: codec::take_integer(row, 0),
                    chat_id: codec::take_integer(row, 1),
                    chat_type: codec::take_text(row, 2),
                    chat_title: codec::take_text(row, 3),
                    message_id: codec::take_integer(row, 4),
                    user_id: codec::take_integer(row, 5),
                    username: codec::take_text(row, 6),
                    full_name: codec::take_text(row, 7),
                    text: codec::take_text(row, 8),
                    replied_to_message_id: codec::take_integer(row, 9),
                    replied_to_user_id: codec::take_integer(row, 10),
                    replied_to_full_name: codec::take_text(row, 11),
                    replied_to_username: codec::take_text(row, 12),
                    replied_to_text: codec::take_text(row, 13),
                    replied_to_chat_type: codec::take_text(row, 14),
                    chatted_at: codec::take_integer(row, 15),
                    embedded: codec::take_boolean(row, 16),
                    from_platform: codec::take_integer(row, 17),
                    created_at: codec::take_integer(row, 18),
                    updated_at: codec::take_integer(row, 19),
                },
            )
        },
    }
}

/// The insert of a message.
pub open spec fn inserted(message: NewTelegramChatHistory, now: i64) -> StatementModel {
    statement::bound(
        INSERT@,
        seq![
            ValueModel::Int(message.chat_id),
            ValueModel::Text(message.chat_type@),
            ValueModel::Text(message.chat_title@),
            ValueModel::Int(message.message_id),
            ValueModel::Int(message.user_id),
            ValueModel::Text(message.username@),
            ValueModel::Text(message.full_name@),
            ValueModel::Text(message.text@),
            ValueModel::Int(message.replied_to_message_id),
            ValueModel::Int(message.replied_to_user_id),
            ValueModel::Text(message.replied_to_full_name@),
            ValueModel::Text(message.replied_to_username@),
            ValueModel::Text(message.replied_to_text@),
            ValueModel::Text(message.replied_to_chat_type@),
            ValueModel::Int(message.chatted_at),
            ValueModel::Flag(false),
            ValueModel::Int(FROM_PLATFORM_TELEGRAM),
            ValueModel::Int(now),
            ValueModel::Int(now),
            ValueModel::Text(models::kind_name(MessageKind::Text)),
        ],
    )
}

/// Store a message; one without a text is not stored. A message that arrives again is
/// stored again.
pub fn save_one(message: &NewTelegramChatHistory, now: i64) -> (r: Option<Statement>)
    ensures
        match r {
            Some(s) => message.text@.len() > 0 && s@ == inserted(*message, now),
            None => message.text@.len() == 0,
        },
{
    if message.text.as_str().is_empty() {
        return None;
    }
    Some(
        bind(
            INSERT,
            vec![
                SqlValue::Int(message.chat_id),
                text_value(message.chat_type.as_str()),
                text_value(message.chat_title.as_str()),
                SqlValue::Int(message.message_id),
                SqlValue::Int(message.user_id),
                text_value(message.username.as_str()),
                text_value(message.full_name.as_str()),
                text_value(message.text.as_str()),
                SqlValue::Int(message.replied_to_message_id),
                SqlValue::Int(message.replied_to_user_id),
                text_value(message.replied_to_full_name.as_str()),
                text_value(message.replied_to_username.as_str()),
                text_value(message.replied_to_text.as_str()),
                text_value(message.replied_to_chat_type.as_str()),
                SqlValue::Int(message.chatted_at),
                SqlValue::Flag(false),
                SqlValue::Int(FROM_PLATFORM_TELEGRAM),
                SqlValue::Int(now),
                SqlValue::Int(now),
                text_value(MessageKind::Text.as_str()),
            ],
        ),
    )
}

/// Replace the text of every row of a message.
pub fn update_message_text(chat_id: i64, message_id: i64, new_text: &str) -> (s: Statement)
    ensures
        s@ == statement::bound(
            UPDATE_TEXT@,
            seq![
                ValueModel::Text(new_text@),
                ValueModel::Int(chat_id),
                ValueModel::Int(message_id),
            ],
        ),
{
    bind(
        UPDATE_TEXT,
        vec![
            text_value(new_text),
            SqlValue::Int(chat_id),
            SqlValue::Int(message_id),
        ],
    )
}

/// Replace the text of every row of a message.
pub fn update_one_text(chat_id: i64, message_id: i64, text: &str) -> (s: Statement)
    ensures
        s@ == statement::bound(
            UPDATE_TEXT@,
            seq![
                ValueModel::Text(text@),
                ValueModel::Int(chat_id),
                ValueModel::Int(message_id),
            ],
        ),
{
    bind(
        UPDATE_TEXT,
        vec![
            text_value(text),
            SqlValue::Int(chat_id),
            SqlValue::Int(message_id),
        ],
    )
}

/// The query for the messages of a chat that were sent after an instant.
pub open spec fn chatted_after() -> Seq<char> {
    SELECT_COLUMNS@ + " WHERE chat_id = $1 AND chatted_at > $2 ORDER BY message_id ASC"@
}

/// The query for the messages of a chat that were sent after an instant.
pub fn find_chatted_after_query() -> (out: String)
    ensures
        out@ == chatted_after(),
{
    joined2(SELECT_COLUMNS, " WHERE chat_id = $1 AND chatted_at > $2 ORDER BY message_id ASC")
}

/// The messages of a chat that were sent after an instant, by their number.
pub fn find_chatted_after(chat_id: i64, cutoff_unix_millis: i64) -> (s: Statement)
    ensures
        s@ == statement::bound(
            chatted_after(),
            seq![
                ValueModel::Int(chat_id),
                ValueModel::Int(cutoff_unix_millis),
            ],
        ),
{
    let query: String = find_chatted_after_query();
    bind(
        query.as_str(),
        vec![
            SqlValue::Int(chat_id),
            SqlValue::Int(cutoff_unix_millis),
        ],
    )
}

/// The messages of a chat that were sent in the last `before_millis`.
pub fn find_by_time_before(chat_id: i64, before_millis: i64, now_unix_millis: i64) -> (s: Statement)
    requires
        i64::MIN <= now_unix_millis - before_millis <= i64::MAX,
    ensures
        s@ == statement::bound(
            chatted_after(),
            seq![
                ValueModel::Int(chat_id),
                ValueModel::Int((now_unix_millis - before_millis) as i64),
            ],
        ),
{
    let cutoff: i64 = now_unix_millis - before_millis;
    find_chatted_after(chat_id, cutoff)
}

/// Remove every message of a chat.
pub fn delete_all_by_chat_id(chat_id: i64) -> (s: Statement)
    ensures
        s@ == statement::bound(
            DELETE_BY_CHAT_ID@,
            seq![
                ValueModel::Int(chat_id),
            ],
        ),
{
    bind(
        DELETE_BY_CHAT_ID,
        vec![
            SqlValue::Int(chat_id),
        ],
    )
}

/// Move every message onto a new chat, which is a supergroup.
pub fn migrate_chat_id(from_chat_id: i64, to_chat_id: i64) -> (s: Statement)
    ensures
        s@ == statement::bound(
            MIGRATE_CHAT_ID@,
            seq![
                ValueModel::Int(to_chat_id),
                ValueModel::Text(CHAT_TYPE_SUPERGROUP@),
                ValueModel::Int(from_chat_id),
            ],
        ),
{
    bind(
        MIGRATE_CHAT_ID,
        vec![
            SqlValue::Int(to_chat_id),
            text_value(CHAT_TYPE_SUPERGROUP),
            SqlValue::Int(from_chat_id),
        ],
    )
}

} // verus!
