//! The log of recaps. A recap of a group names its model; one of forwarded messages does
//! not.

use vstd::prelude::*;

use crate::db::models::{
    TokenUsage, FROM_PLATFORM_TELEGRAM, RECAP_TYPE_FOR_GROUP, RECAP_TYPE_FOR_PRIVATE_FORWARDED,
};
use crate::db::statement::{self, bind, text_value, SqlValue, Statement, StatementModel, ValueModel};
use crate::db::DbBackend;

verus! {

pub const INSERT_POSTGRES: &'static str = "INSERT INTO log_chat_histories_recaps
        (id, chat_id, recap_inputs, recap_outputs, from_platform, prompt_token_usage,
         completion_token_usage, total_token_usage, recap_type, model_name,
         created_at, updated_at)
     VALUES (CAST($1 AS UUID), $2, $3, $4, $5, $6, $7, $8, $9, $10, $11, $12)";

pub const INSERT_SQLITE: &'static str = "INSERT INTO log_chat_histories_recaps
        (id, chat_id, recap_inputs, recap_outputs, from_platform, prompt_token_usage,
         completion_token_usage, total_token_usage, recap_type, model_name,
         created_at, updated_at)
     VALUES ($1, $2, $3, $4, $5, $6, $7, $8, $9, $10, $11, $12)";

pub const PRUNE_CONTENT: &'static str = "UPDATE log_chat_histories_recaps SET recap_inputs = $1, recap_outputs = $2
         WHERE chat_id = $3";

pub const MIGRATE_CHAT_ID: &'static str = "UPDATE log_chat_histories_recaps SET chat_id = $1 WHERE chat_id = $2";

/// The insert of a backend.
pub open spec fn insert_sql(backend: DbBackend) -> Seq<char> {
    match backend {
        DbBackend::Postgres => INSERT_POSTGRES@,
        DbBackend::Sqlite => INSERT_SQLITE@,
    }
}

/// The insert of a backend: PostgreSQL casts the identifier, SQLite binds it as it is.
pub fn insert_statement(backend: DbBackend) -> (out: &'static str)
    ensures
        out@ == insert_sql(backend),
{
    match backend {
        DbBackend::Postgres => INSERT_POSTGRES,
        DbBackend::Sqlite => INSERT_SQLITE,
    }
}

/// A recap to be logged.
pub struct NewRecapLog<'a> {
    pub backend: DbBackend,
    pub id: &'a str,
    pub chat_id: i64,
    pub recap_inputs: &'a str,
    pub recap_outputs: &'a str,
    pub usage: TokenUsage,
    pub now: i64,
}

/// The insert of a logged recap.
pub open spec fn inserted(
    new: NewRecapLog<'_>,
    recap_type: i64,
    model_name: Seq<char>,
) -> StatementModel {
    statement::bound(
        insert_sql(new.backend),
        seq![
            ValueModel::Text(new.id@),
            ValueModel::Int(new.chat_id),
            ValueModel::Text(new.recap_inputs@),
            ValueModel::Text(new.recap_outputs@),
            ValueModel::Int(FROM_PLATFORM_TELEGRAM),
            ValueModel::Int(new.usage.prompt_tokens),
            ValueModel::Int(new.usage.completion_tokens),
            ValueModel::Int(new.usage.total_tokens),
            ValueModel::Int(recap_type),
            ValueModel::Text(model_name),
            ValueModel::Int(new.now),
            ValueModel::Int(new.now),
        ],
    )
}

fn insert(new: &NewRecapLog<'_>, recap_type: i64, model_name: &str) -> (s: Statement)
    ensures
        s@ == inserted(*new, recap_type, model_name@),
{
    bind(
        insert_statement(new.backend),
        vec![
            text_value(new.id),
            SqlValue::Int(new.chat_id),
            text_value(new.recap_inputs),
            text_value(new.recap_outputs),
            SqlValue::Int(FROM_PLATFORM_TELEGRAM),
            SqlValue::Int(new.usage.prompt_tokens),
            SqlValue::Int(new.usage.completion_tokens),
            SqlValue::Int(new.usage.total_tokens),
            SqlValue::Int(recap_type),
            text_value(model_name),
            SqlValue::Int(new.now),
            SqlValue::Int(new.now),
        ],
    )
}

/// Log the recap of a group, with its model; its identifier is what a feedback button
/// carries.
pub fn create_group_recap(new: &NewRecapLog<'_>, model_name: &str) -> (r: (String, Statement))
    ensures
        r.0@ == new.id@,
        r.1@ == inserted(*new, RECAP_TYPE_FOR_GROUP, model_name@),
{
    (new.id.to_owned(), insert(new, RECAP_TYPE_FOR_GROUP, model_name))
}

/// Log the recap of forwarded messages, without a model.
pub fn create_private_forwarded_recap(new: &NewRecapLog<'_>) -> (s: Statement)
    ensures
        s@ == inserted(*new, RECAP_TYPE_FOR_PRIVATE_FORWARDED, ""@),
{
    insert(new, RECAP_TYPE_FOR_PRIVATE_FORWARDED, "")
}

/// Blank the recaps of a chat. The rows stay, so that their feedback buttons still work.
pub fn prune_content_by_chat_id(chat_id: i64) -> (s: Statement)
    ensures
        s@ == statement::bound(
            PRUNE_CONTENT@,
            seq![
                ValueModel::Text(""@),
                ValueModel::Text(""@),
                ValueModel::Int(chat_id),
            ],
        ),
{
    bind(
        PRUNE_CONTENT,
        vec![
            text_value(""),
            text_value(""),
            SqlValue::Int(chat_id),
        ],
    )
}

/// Move the logged recaps onto a new chat.
pub fn migrate_chat_id(from_chat_id: i64, to_chat_id: i64) -> (s: Statement)
    ensures
        s@ == statement::bound(
            MIGRATE_CHAT_ID@,
            seq![
                ValueModel::Int(to_chat_id),
                ValueModel::Int(from_chat_id),
            ],
        ),
{
    bind(
        MIGRATE_CHAT_ID,
        vec![
            SqlValue::Int(to_chat_id),
            SqlValue::Int(from_chat_id),
        ],
    )
}

} // verus!
