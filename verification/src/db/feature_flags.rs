//! What is switched on in a group, and its language. Only groups and supergroups have
//! flags; setting one for any other chat does nothing.

use vstd::prelude::*;

use crate::db::codec::{self, Cell, CodecError, ColumnKind};
use crate::db::models::{
    self, TelegramChatFeatureFlags, CHAT_TYPE_SUPERGROUP, DEFAULT_FEATURE_LANGUAGE,
};
use crate::db::statement::{
    self, bind, bind_flag, bind_text, text_value, SqlValue, Statement, StatementModel, ValueModel,
};
use crate::db::DbBackend;
use crate::text::{joined2, same};

verus! {

/// The columns of the flags, as text.
pub const SELECT_COLUMNS: &'static str = "SELECT CAST(id AS TEXT), CAST(chat_id AS TEXT),
        CAST(chat_type AS TEXT), CAST(chat_title AS TEXT),
        CAST(feature_chat_histories_recap AS TEXT), CAST(feature_language AS TEXT),
        CAST(created_at AS TEXT), CAST(updated_at AS TEXT)
     FROM telegram_chat_feature_flags";

pub const INSERT_POSTGRES: &'static str = "INSERT INTO telegram_chat_feature_flags
        (id, chat_id, chat_type, chat_title, feature_chat_histories_recap,
         feature_language, created_at, updated_at)
     VALUES (CAST($1 AS UUID), $2, $3, $4, $5, $6, $7, $8)";

pub const INSERT_SQLITE: &'static str = "INSERT INTO telegram_chat_feature_flags
        (id, chat_id, chat_type, chat_title, feature_chat_histories_recap,
         feature_language, created_at, updated_at)
     VALUES ($1, $2, $3, $4, $5, $6, $7, $8)";

/// The groups with recaps.
pub const ENABLED_GROUPS: &'static str = " WHERE chat_type IN ('group', 'supergroup')
             AND feature_chat_histories_recap = $1";

/// The flags of one group.
pub const ONE_GROUP: &'static str = " WHERE chat_id = $1 AND chat_type IN ('group', 'supergroup') LIMIT 1";

pub const REPAIR_TITLE: &'static str = "UPDATE telegram_chat_feature_flags SET chat_title = $1 WHERE chat_id = $2";

pub const SET_LANGUAGE: &'static str = "UPDATE telegram_chat_feature_flags SET feature_language = $1 WHERE chat_id = $2";

pub const SET_RECAP: &'static str = "UPDATE telegram_chat_feature_flags
         SET feature_chat_histories_recap = $1
         WHERE chat_id = $2";

pub const DELETE_BY_CHAT_ID: &'static str = "DELETE FROM telegram_chat_feature_flags WHERE chat_id = $1";

pub const MIGRATE_CHAT_ID: &'static str = "UPDATE telegram_chat_feature_flags SET chat_id = $1, chat_type = $2 WHERE chat_id = $3";

/// The insert of a backend.
pub open spec fn insert_sql(backend: DbBackend) -> Seq<char> {
    match backend {
        DbBackend::Postgres => INSERT_POSTGRES@,
        DbBackend::Sqlite => INSERT_SQLITE@,
    }
}

/// The insert of a backend: PostgreSQL casts the identifier, SQLite binds it as it is.
pub fn insert_statement(backend: DbBackend) -> (out: &'static str)
    ensures
        out@ == insert_sql(backend),
{
    match backend {
        DbBackend::Postgres => INSERT_POSTGRES,
        DbBackend::Sqlite => INSERT_SQLITE,
    }
}

/// The query for the groups with recaps: in no order, repeated rows included.
pub fn list_recap_enabled_groups_query() -> (out: String)
    ensures
        out@ == SELECT_COLUMNS@ + ENABLED_GROUPS@,
{
    joined2(SELECT_COLUMNS, ENABLED_GROUPS)
}

/// The groups with recaps.
pub fn list_recap_enabled_groups() -> (s: Statement)
    ensures
        s@ == statement::bound(
            SELECT_COLUMNS@ + ENABLED_GROUPS@,
            seq![
                ValueModel::Flag(true),
            ],
        ),
{
    let query: String = list_recap_enabled_groups_query();
    bind(
        query.as_str(),
        vec![
            SqlValue::Flag(true),
        ],
    )
}

/// The flags of one group.
pub fn find_one_for_groups(chat_id: i64) -> (s: Statement)
    ensures
        s@ == statement::bound(
            SELECT_COLUMNS@ + ONE_GROUP@,
            seq![
                ValueModel::Int(chat_id),
            ],
        ),
{
    let query: String = joined2(SELECT_COLUMNS, ONE_GROUP);
    bind(
        query.as_str(),
        vec![
            SqlValue::Int(chat_id),
        ],
    )
}

/// The columns of the flags.
pub open spec fn columns() -> Seq<ColumnKind> {
    seq![
        ColumnKind::Text,
        ColumnKind::Integer,
        ColumnKind::Text,
        ColumnKind::Text,
        ColumnKind::Boolean,
        ColumnKind::Text,
        ColumnKind::Integer,
        ColumnKind::Integer,
    ]
}

/// What a row holds; the first column that cannot be read is reported.
pub fn decode(row: &Vec<Cell>) -> (r: Result<TelegramChatFeatureFlags, CodecError>)
    ensures
        match r {
            Ok(found) => {
                &&& codec::row_fault(row@, columns()) is None
                &&& found.id@ == codec::text_cell(row@, 0)
                &&& found.chat_id == codec::integer_cell(row@, 1)
                &&& found.chat_type@ == codec::text_cell(row@, 2)
                &&& found.chat_title@ == codec::text_cell(row@, 3)
                &&& found.feature_chat_histories_recap == codec::boolean_cell(row@, 4)
                &&& found.feature_language@ == codec::text_cell(row@, 5)
                &&& found.created_at == codec::integer_cell(row@, 6)
                &&& found.updated_at == codec::integer_cell(row@, 7)
            },
            Err(error) => codec::row_fault(row@, columns()) == Some(error),
        },
{
    let kinds: Vec<ColumnKind> = vec![
        ColumnKind::Text,
        ColumnKind::Integer,
        ColumnKind::Text,
        ColumnKind::Text,
        ColumnKind::Boolean,
        ColumnKind::Text,
        ColumnKind::Integer,
        ColumnKind::Integer,
    ];
    assert(kinds@ =~= columns());
    match codec::fault_of_row(row, &kinds) {
        Some(error) => Err(error),
        None => {
            assert(kinds@[0] == ColumnKind::Text
                && kinds@[1] == ColumnKind::Integer
                && kinds@[2] == ColumnKind::Text
                && kinds@[3] == ColumnKind::Text
                && kinds@[4] == ColumnKind::Boolean
                && kinds@[5] == ColumnKind::Text
                && kinds@[6] == ColumnKind::Integer
                && kinds@[7] == ColumnKind::Integer);
            Ok(
                TelegramChatFeatureFlags {
                    id: codec::take_text(row, 0),
                    chat_id: codec::take_integer(row, 1),
                    chat_type: codec::take_text(row, 2),
                    chat_title: codec::take_text(row, 3),
                    feature_chat_histories_recap: codec::take_boolean(row, 4),
                    feature_language: codec::take_text(row, 5),
                    created_at: codec::take_integer(row, 6),
                    updated_at: codec::take_integer(row, 7),
                },
            )
        },
    }
}

/// Whether recaps are offered in a chat of this type.
pub fn is_eligible_chat_type(chat_type: &str) -> (r: bool)
    ensures
        r == models::eligible(chat_type@),
{
    models::is_recap_eligible(chat_type)
}

/// A group whose flags are looked up or set.
pub struct GroupFlags<'a> {
    pub backend: DbBackend,
    /// The identifier of a row that is created.
    pub id: &'a str,
    pub chat_id: i64,
    pub chat_type: &'a str,
    pub chat_title: &'a str,
    pub now: i64,
}

/// The statement that fills in a title that was stored empty.
pub open spec fn repairs(
    chat_id: i64,
    chat_title: Seq<char>,
    found: Option<TelegramChatFeatureFlags>,
) -> Seq<StatementModel> {
    match found {
        Some(flags) => if flags.chat_title@.len() == 0 && chat_title.len() > 0 {
            seq![
                statement::bound(
                    REPAIR_TITLE@,
                    seq![ValueModel::Text(chat_title), ValueModel::Int(chat_id)],
                ),
            ]
        } else {
            Seq::empty()
        },
        None => Seq::empty(),
    }
}

/// The statement that fills in a title that was stored empty, after every lookup; the
/// flags that were found are handed on as they are.
pub fn title_repair(
    chat_id: i64,
    chat_title: &str,
    found: &Option<TelegramChatFeatureFlags>,
) -> (out: Vec<Statement>)
    ensures
        statement::statement_models(out@) == repairs(chat_id, chat_title@, *found),
{
    let mut out: Vec<Statement> = Vec::new();
    match found {
        Some(flags) => {
            if flags.chat_title.as_str().is_empty() && !chat_title.is_empty() {
                out.push(bind_text(REPAIR_TITLE, chat_title, chat_id));
            }
        },
        None => {},
    }
    assert(statement::statement_models(out@) =~= repairs(chat_id, chat_title@, *found));
    out
}

/// The insert of new flags.
pub open spec fn inserted(
    group: GroupFlags<'_>,
    recap_enabled: bool,
    language: Seq<char>,
) -> StatementModel {
    statement::bound(
        insert_sql(group.backend),
        seq![
            ValueModel::Text(group.id@),
            ValueModel::Int(group.chat_id),
            ValueModel::Text(group.chat_type@),
            ValueModel::Text(group.chat_title@),
            ValueModel::Flag(recap_enabled),
            ValueModel::Text(language),
            ValueModel::Int(group.now),
            ValueModel::Int(group.now),
        ],
    )
}

fn insert(group: &GroupFlags<'_>, recap_enabled: bool, language: &str) -> (s: Statement)
    ensures
        s@ == inserted(*group, recap_enabled, language@),
{
    bind(
        insert_statement(group.backend),
        vec![
            text_value(group.id),
            SqlValue::Int(group.chat_id),
            text_value(group.chat_type),
            text_value(group.chat_title),
            SqlValue::Flag(recap_enabled),
            text_value(language),
            SqlValue::Int(group.now),
            SqlValue::Int(group.now),
        ],
    )
}

/// The statements that looking for flags or creating them takes: new flags are off and
/// English.
pub open spec fn creation(
    group: GroupFlags<'_>,
    found: Option<TelegramChatFeatureFlags>,
) -> Seq<StatementModel> {
    match found {
        Some(_) => repairs(group.chat_id, group.chat_title@, found),
        None => seq![inserted(group, false, DEFAULT_FEATURE_LANGUAGE@)],
    }
}

/// Look for flags or create them.
pub fn find_or_create_for_groups(
    group: &GroupFlags<'_>,
    found: &Option<TelegramChatFeatureFlags>,
) -> (out: Vec<Statement>)
    ensures
        statement::statement_models(out@) == creation(*group, *found),
{
    match found {
        Some(_) => title_repair(group.chat_id, group.chat_title, found),
        None => {
            let out: Vec<Statement> = vec![insert(group, false, DEFAULT_FEATURE_LANGUAGE)];
            assert(statement::statement_models(out@) =~= creation(*group, *found));
            out
        },
    }
}

/// Whether recaps are on: without flags they are off.
pub fn has_recap_enabled(found: &Option<TelegramChatFeatureFlags>) -> (r: bool)
    ensures
        r == match found {
            Some(flags) => flags.feature_chat_histories_recap,
            None => false,
        },
{
    match found {
        Some(flags) => flags.feature_chat_histories_recap,
        None => false,
    }
}

/// Whether the bot has been in the group before.
pub fn has_joined_before(found: &Option<TelegramChatFeatureFlags>) -> (r: bool)
    ensures
        r == (found is Some),
{
    found.is_some()
}

/// The language of a group: English without flags.
pub open spec fn language_of(found: Option<TelegramChatFeatureFlags>) -> Seq<char> {
    match found {
        Some(flags) => flags.feature_language@,
        None => DEFAULT_FEATURE_LANGUAGE@,
    }
}

/// The language of a group.
pub fn find_language(found: &Option<TelegramChatFeatureFlags>) -> (out: String)
    ensures
        out@ == language_of(*found),
{
    match found {
        Some(flags) => flags.feature_language.clone(),
        None => DEFAULT_FEATURE_LANGUAGE.to_owned(),
    }
}

/// The statements that setting the language takes.
pub open spec fn language_change(
    group: GroupFlags<'_>,
    found: Option<TelegramChatFeatureFlags>,
    language: Seq<char>,
) -> Seq<StatementModel> {
    if !models::eligible(group.chat_type@) {
        Seq::empty()
    } else {
        creation(group, found) + if language_of(found) == language {
            Seq::empty()
        } else {
            seq![
                statement::bound(
                    SET_LANGUAGE@,
                    seq![ValueModel::Text(language), ValueModel::Int(group.chat_id)],
                ),
            ]
        }
    }
}

/// Set the language of a group.
pub fn set_language(
    group: &GroupFlags<'_>,
    found: &Option<TelegramChatFeatureFlags>,
    language: &str,
) -> (out: Vec<Statement>)
    ensures
        statement::statement_models(out@) == language_change(*group, *found, language@),
{
    if !is_eligible_chat_type(group.chat_type) {
        let none: Vec<Statement> = Vec::new();
        assert(statement::statement_models(none@) =~= Seq::<StatementModel>::empty());
        return none;
    }
    let mut out: Vec<Statement> = find_or_create_for_groups(group, found);
    let ghost created = statement::statement_models(out@);
    let current: String = find_language(found);
    if !same(current.as_str(), language) {
        out.push(bind_text(SET_LANGUAGE, language, group.chat_id));
        assert(statement::statement_models(out@).drop_last() =~= created);
    }
    assert(statement::statement_models(out@) =~= language_change(*group, *found, language@));
    out
}

/// The statement that switches recaps.
pub open spec fn recap_switch(chat_id: i64, enabled: bool) -> StatementModel {
    statement::bound(SET_RECAP@, seq![ValueModel::Flag(enabled), ValueModel::Int(chat_id)])
}

fn set_recap_flag(chat_id: i64, enabled: bool) -> (s: Statement)
    ensures
        s@ == recap_switch(chat_id, enabled),
{
    bind_flag(SET_RECAP, enabled, chat_id)
}

/// The statements that switching recaps on takes.
pub open spec fn enabling(
    group: GroupFlags<'_>,
    found: Option<TelegramChatFeatureFlags>,
) -> Seq<StatementModel> {
    let on = match found {
        Some(flags) => flags.feature_chat_histories_recap,
        None => false,
    };
    if !models::eligible(group.chat_type@) {
        Seq::empty()
    } else {
        creation(group, found) + if on {
            Seq::empty()
        } else {
            seq![recap_switch(group.chat_id, true)]
        }
    }
}

/// Switch recaps on; flags that are created for it are English.
pub fn enable_recap(
    group: &GroupFlags<'_>,
    found: &Option<TelegramChatFeatureFlags>,
) -> (out: Vec<Statement>)
    ensures
        statement::statement_models(out@) == enabling(*group, *found),
{
    if !is_eligible_chat_type(group.chat_type) {
        let none: Vec<Statement> = Vec::new();
        assert(statement::statement_models(none@) =~= Seq::<StatementModel>::empty());
        return none;
    }
    let mut out: Vec<Statement> = find_or_create_for_groups(group, found);
    let ghost created = statement::statement_models(out@);
    if !has_recap_enabled(found) {
        out.push(set_recap_flag(group.chat_id, true));
        assert(statement::statement_models(out@).drop_last() =~= created);
    }
    assert(statement::statement_models(out@) =~= enabling(*group, *found));
    out
}

/// The statements that switching recaps off takes.
pub open spec fn disabling(
    group: GroupFlags<'_>,
    found: Option<TelegramChatFeatureFlags>,
) -> Seq<StatementModel> {
    if !models::eligible(group.chat_type@) {
        Seq::empty()
    } else {
        match found {
            None => seq![inserted(group, false, ""@)],
            Some(flags) => repairs(group.chat_id, group.chat_title@, found)
                + if flags.feature_chat_histories_recap {
                seq![recap_switch(group.chat_id, false)]
            } else {
                Seq::empty()
            },
        }
    }
}

/// Switch recaps off; flags that are created for it have no language.
pub fn disable_recap(
    group: &GroupFlags<'_>,
    found: &Option<TelegramChatFeatureFlags>,
) -> (out: Vec<Statement>)
    ensures
        statement::statement_models(out@) == disabling(*group, *found),
{
    let mut out: Vec<Statement> = Vec::new();
    if is_eligible_chat_type(group.chat_type) {
        match found {
            None => {
                out.push(insert(group, false, ""));
            },
            Some(flags) => {
                out = title_repair(group.chat_id, group.chat_title, found);
                let ghost repaired = statement::statement_models(out@);
                if flags.feature_chat_histories_recap {
                    out.push(set_recap_flag(group.chat_id, false));
                    assert(statement::statement_models(out@).drop_last() =~= repaired);
                }
            },
        }
    }
    assert(statement::statement_models(out@) =~= disabling(*group, *found));
    out
}

/// Remove the flags of a chat.
pub fn delete_by_chat_id(chat_id: i64) -> (s: Statement)
    ensures
        s@ == statement::bound(
            DELETE_BY_CHAT_ID@,
            seq![
                ValueModel::Int(chat_id),
            ],
        ),
{
    bind(
        DELETE_BY_CHAT_ID,
        vec![
            SqlValue::Int(chat_id),
        ],
    )
}

/// Move the flags onto a new chat, which is a supergroup.
pub fn migrate_chat_id(from_chat_id: i64, to_chat_id: i64) -> (s: Statement)
    ensures
        s@ == statement::bound(
            MIGRATE_CHAT_ID@,
            seq![
                ValueModel::Int(to_chat_id),
                ValueModel::Text(CHAT_TYPE_SUPERGROUP@),
                ValueModel::Int(from_chat_id),
            ],
        ),
{
    bind(
        MIGRATE_CHAT_ID,
        vec![
            SqlValue::Int(to_chat_id),
            text_value(CHAT_TYPE_SUPERGROUP),
            SqlValue::Int(from_chat_id),
        ],
    )
}

} // verus!
