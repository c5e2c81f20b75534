//! The tokens that completions used, one row per completion. The lengths in characters
//! stay zero.

use vstd::prelude::*;

use crate::db::models::TokenUsage;
use crate::db::statement::{self, bind, text_value, SqlValue, Statement, ValueModel};
use crate::db::DbBackend;

verus! {

pub const INSERT_POSTGRES: &'static str = "INSERT INTO metric_open_ai_chat_completion_token_usages
        (id, prompt_operation, prompt_character_length, prompt_token_usage,
         completion_character_length, completion_token_usage, total_token_usage,
         model_name, created_at)
     VALUES (CAST($1 AS UUID), $2, $3, $4, $5, $6, $7, $8, $9)";

pub const INSERT_SQLITE: &'static str = "INSERT INTO metric_open_ai_chat_completion_token_usages
        (id, prompt_operation, prompt_character_length, prompt_token_usage,
         completion_character_length, completion_token_usage, total_token_usage,
         model_name, created_at)
     VALUES ($1, $2, $3, $4, $5, $6, $7, $8, $9)";

/// The insert of a backend.
pub open spec fn insert_sql(backend: DbBackend) -> Seq<char> {
    match backend {
        DbBackend::Postgres => INSERT_POSTGRES@,
        DbBackend::Sqlite => INSERT_SQLITE@,
    }
}

/// The insert of a backend: PostgreSQL casts the identifier, SQLite binds it as it is.
pub fn insert_statement(backend: DbBackend) -> (out: &'static str)
    ensures
        out@ == insert_sql(backend),
{
    match backend {
        DbBackend::Postgres => INSERT_POSTGRES,
        DbBackend::Sqlite => INSERT_SQLITE,
    }
}

/// Record the tokens of one completion.
pub fn create(
    backend: DbBackend,
    id: &str,
    prompt_operation: &str,
    usage: TokenUsage,
    model_name: &str,
    now: i64,
) -> (s: Statement)
    ensures
        s@ == statement::bound(
            insert_sql(backend),
            seq![
                ValueModel::Text(id@),
                ValueModel::Text(prompt_operation@),
                ValueModel::Int(0),
                ValueModel::Int(usage.prompt_tokens),
                ValueModel::Int(0),
                ValueModel::Int(usage.completion_tokens),
                ValueModel::Int(usage.total_tokens),
                ValueModel::Text(model_name@),
                ValueModel::Int(now),
            ],
        ),
{
    bind(
        insert_statement(backend),
        vec![
            text_value(id),
            text_value(prompt_operation),
            SqlValue::Int(0),
            SqlValue::Int(usage.prompt_tokens),
            SqlValue::Int(0),
            SqlValue::Int(usage.completion_tokens),
            SqlValue::Int(usage.total_tokens),
            text_value(model_name),
            SqlValue::Int(now),
        ],
    )
}

} // verus!
