//! The recap options of a chat. Looking for them or creating them gives public recaps
//! four times a day; setting only the mode of a chat without options leaves the rate at zero.

use vstd::prelude::*;

use crate::db::codec::{self, Cell, CodecError, ColumnKind};
use crate::db::models::{self, AutoRecapSendMode, TelegramChatRecapsOptions};
use crate::db::statement::{
    self, bind, bind_flag, bind_int, text_value, SqlValue, Statement, StatementModel, ValueModel,
};
use crate::db::DbBackend;
use crate::text::joined2;

verus! {

/// The daily rate of options that are created on first use.
pub const FIRST_ENABLE_RATES_PER_DAY: i64 = 4;

/// The columns of the options, as text.
pub const SELECT_COLUMNS: &'static str = "SELECT CAST(id AS TEXT), CAST(chat_id AS TEXT),
        CAST(auto_recap_send_mode AS TEXT), CAST(manual_recap_rate_per_seconds AS TEXT),
        CAST(auto_recap_rates_per_day AS TEXT), CAST(pin_auto_recap_message AS TEXT),
        CAST(created_at AS TEXT), CAST(updated_at AS TEXT)
     FROM telegram_chat_recaps_options";

pub const INSERT_POSTGRES: &'static str = "INSERT INTO telegram_chat_recaps_options
        (id, chat_id, auto_recap_send_mode, manual_recap_rate_per_seconds,
         auto_recap_rates_per_day, pin_auto_recap_message, created_at, updated_at)
     VALUES (CAST($1 AS UUID), $2, $3, $4, $5, $6, $7, $8)";

pub const INSERT_SQLITE: &'static str = "INSERT INTO telegram_chat_recaps_options
        (id, chat_id, auto_recap_send_mode, manual_recap_rate_per_seconds,
         auto_recap_rates_per_day, pin_auto_recap_message, created_at, updated_at)
     VALUES ($1, $2, $3, $4, $5, $6, $7, $8)";

pub const SET_SEND_MODE: &'static str = "UPDATE telegram_chat_recaps_options SET auto_recap_send_mode = $1 WHERE chat_id = $2";

pub const SET_RATES_PER_DAY: &'static str = "UPDATE telegram_chat_recaps_options SET auto_recap_rates_per_day = $1 WHERE chat_id = $2";

pub const SET_PIN: &'static str = "UPDATE telegram_chat_recaps_options SET pin_auto_recap_message = $1 WHERE chat_id = $2";

pub const DELETE_BY_CHAT_ID: &'static str = "DELETE FROM telegram_chat_recaps_options WHERE chat_id = $1";

pub const MIGRATE_CHAT_ID: &'static str = "UPDATE telegram_chat_recaps_options SET chat_id = $1 WHERE chat_id = $2";

/// The insert of a backend.
pub open spec fn insert_sql(backend: DbBackend) -> Seq<char> {
    match backend {
        DbBackend::Postgres => INSERT_POSTGRES@,
        DbBackend::Sqlite => INSERT_SQLITE@,
    }
}

/// The insert of a backend: PostgreSQL casts the identifier, SQLite binds it as it is.
pub fn insert_statement(backend: DbBackend) -> (out: &'static str)
    ensures
        out@ == insert_sql(backend),
{
    match backend {
        DbBackend::Postgres => INSERT_POSTGRES,
        DbBackend::Sqlite => INSERT_SQLITE,
    }
}

/// The columns of the options.
pub open spec fn columns() -> Seq<ColumnKind> {
    seq![
        ColumnKind::Text,
        ColumnKind::Integer,
        ColumnKind::Integer,
        ColumnKind::Integer,
        ColumnKind::Integer,
        ColumnKind::Boolean,
        ColumnKind::Integer,
        ColumnKind::Integer,
    ]
}

/// What a row holds; the first column that cannot be read is reported.
pub fn decode(row: &Vec<Cell>) -> (r: Result<TelegramChatRecapsOptions, CodecError>)
    ensures
        match r {
            Ok(found) => {
                &&& codec::row_fault(row@, columns()) is None
                &&& found.id@ == codec::text_cell(row@, 0)
                &&& found.chat_id == codec::integer_cell(row@, 1)
                &&& found.auto_recap_send_mode == codec::integer_cell(row@, 2)
                &&& found.manual_recap_rate_per_seconds == codec::integer_cell(row@, 3)
                &&& found.auto_recap_rates_per_day == codec::integer_cell(row@, 4)
                &&& found.pin_auto_recap_message == codec::boolean_cell(row@, 5)
                &&& found.created_at == codec::integer_cell(row@, 6)
                &&& found.updated_at == codec::integer_cell(row@, 7)
            },
            Err(error) => codec::row_fault(row@, columns()) == Some(error),
        },
{
    let kinds: Vec<ColumnKind> = vec![
        ColumnKind::Text,
        ColumnKind::Integer,
        ColumnKind::Integer,
        ColumnKind::Integer,
        ColumnKind::Integer,
        ColumnKind::Boolean,
        ColumnKind::Integer,
        ColumnKind::Integer,
    ];
    assert(kinds@ =~= columns());
    match codec::fault_of_row(row, &kinds) {
        Some(error) => Err(error),
        None => {
            assert(kinds@[0] == ColumnKind::Text
                && kinds@[1] == ColumnKind::Integer
                && kinds@[2] == ColumnKind::Integer
                && kinds@[3] == ColumnKind::Integer
                && kinds@[4] == ColumnKind::Integer
                && kinds@[5] == ColumnKind::Boolean
                && kinds@[6] == ColumnKind::Integer
                && kinds@[7] == ColumnKind::Integer);
            Ok(
                TelegramChatRecapsOptions {
                    id: codec::take_text(row, 0),
                    chat_id: codec::take_integer(row, 1),
                    auto_recap_send_mode: codec::take_integer(row, 2),
                    manual_recap_rate_per_seconds: codec::take_integer(row, 3),
                    auto_recap_rates_per_day: codec::take_integer(row, 4),
                    pin_auto_recap_message: codec::take_boolean(row, 5),
                    created_at: codec::take_integer(row, 6),
                    updated_at: codec::take_integer(row, 7),
                },
            )
        },
    }
}

/// The options of a chat.
pub fn find_one(chat_id: i64) -> (s: Statement)
    ensures
        s@ == statement::bound(
            SELECT_COLUMNS@ + " WHERE chat_id = $1 LIMIT 1"@,
            seq![
                ValueModel::Int(chat_id),
            ],
        ),
{
    let query: String = joined2(SELECT_COLUMNS, " WHERE chat_id = $1 LIMIT 1");
    bind(
        query.as_str(),
        vec![
            SqlValue::Int(chat_id),
        ],
    )
}

/// The insert of new options.
pub open spec fn inserted(
    backend: DbBackend,
    id: Seq<char>,
    chat_id: i64,
    send_mode: i64,
    rates_per_day: i64,
    pin: bool,
    now: i64,
) -> StatementModel {
    statement::bound(
        insert_sql(backend),
        seq![
            ValueModel::Text(id),
            ValueModel::Int(chat_id),
            ValueModel::Int(send_mode),
            ValueModel::Int(0),
            ValueModel::Int(rates_per_day),
            ValueModel::Flag(pin),
            ValueModel::Int(now),
            ValueModel::Int(now),
        ],
    )
}

fn insert(
    backend: DbBackend,
    id: &str,
    chat_id: i64,
    send_mode: i64,
    rates_per_day: i64,
    pin: bool,
    now: i64,
) -> (s: Statement)
    ensures
        s@ == inserted(backend, id@, chat_id, send_mode, rates_per_day, pin, now),
{
    bind(
        insert_statement(backend),
        vec![
            text_value(id),
            SqlValue::Int(chat_id),
            SqlValue::Int(send_mode),
            SqlValue::Int(0),
            SqlValue::Int(rates_per_day),
            SqlValue::Flag(pin),
            SqlValue::Int(now),
            SqlValue::Int(now),
        ],
    )
}

/// Where new options come from: who is asked, under which identifier and when.
pub struct NewOptions<'a> {
    pub backend: DbBackend,
    pub id: &'a str,
    pub chat_id: i64,
    pub now: i64,
}

/// The statements that looking for options or creating them takes.
pub open spec fn creation(
    new: NewOptions<'_>,
    found: Option<TelegramChatRecapsOptions>,
) -> Seq<StatementModel> {
    match found {
        Some(_) => Seq::empty(),
        None => seq![
            inserted(
                new.backend,
                new.id@,
                new.chat_id,
                models::stored_mode(AutoRecapSendMode::Publicly),
                FIRST_ENABLE_RATES_PER_DAY,
                false,
                new.now,
            ),
        ],
    }
}

/// The options, found or created: public recaps, four a day, not pinned. The statements
/// come first.
pub fn find_one_or_create(
    new: &NewOptions<'_>,
    found: Option<TelegramChatRecapsOptions>,
) -> (r: (Vec<Statement>, TelegramChatRecapsOptions))
    ensures
        statement::statement_models(r.0@) == creation(*new, found),
        match found {
            Some(options) => r.1 == options,
            None => {
                &&& r.1.id@ == new.id@
                &&& r.1.chat_id == new.chat_id
                &&& r.1.auto_recap_send_mode == 0
                &&& r.1.manual_recap_rate_per_seconds == 0
                &&& r.1.auto_recap_rates_per_day == FIRST_ENABLE_RATES_PER_DAY
                &&& !r.1.pin_auto_recap_message
                &&& r.1.created_at == new.now
                &&& r.1.updated_at == new.now
            },
        },
{
    match found {
        Some(options) => {
            let none: Vec<Statement> = Vec::new();
            assert(statement::statement_models(none@) =~= Seq::<StatementModel>::empty());
            (none, options)
        },
        None => {
            let created = first_enable(new);
            let all: Vec<Statement> = vec![created];
            assert(statement::statement_models(all@) =~= creation(*new, found));
            (
                all,
                TelegramChatRecapsOptions {
                    id: new.id.to_owned(),
                    chat_id: new.chat_id,
                    auto_recap_send_mode: 0,
                    manual_recap_rate_per_seconds: 0,
                    auto_recap_rates_per_day: FIRST_ENABLE_RATES_PER_DAY,
                    pin_auto_recap_message: false,
                    created_at: new.now,
                    updated_at: new.now,
                },
            )
        },
    }
}

fn first_enable(new: &NewOptions<'_>) -> (s: Statement)
    ensures
        s@ == inserted(
            new.backend,
            new.id@,
            new.chat_id,
            models::stored_mode(AutoRecapSendMode::Publicly),
            FIRST_ENABLE_RATES_PER_DAY,
            false,
            new.now,
        ),
{
    insert(
        new.backend,
        new.id,
        new.chat_id,
        AutoRecapSendMode::Publicly.as_stored(),
        FIRST_ENABLE_RATES_PER_DAY,
        false,
        new.now,
    )
}

/// The statements that setting the delivery mode takes.
pub open spec fn mode_change(
    new: NewOptions<'_>,
    found: Option<TelegramChatRecapsOptions>,
    mode: AutoRecapSendMode,
) -> Seq<StatementModel> {
    match found {
        None => seq![
            inserted(
                new.backend,
                new.id@,
                new.chat_id,
                models::stored_mode(mode),
                0,
                false,
                new.now,
            ),
        ],
        Some(options) => if options.auto_recap_send_mode == models::stored_mode(mode) {
            Seq::empty()
        } else {
            seq![
                statement::bound(
                    SET_SEND_MODE@,
                    seq![ValueModel::Int(models::stored_mode(mode)), ValueModel::Int(new.chat_id)],
                ),
            ]
        },
    }
}

/// Set the delivery mode; options that are created for it carry nothing but the mode.
pub fn set_send_mode(
    new: &NewOptions<'_>,
    found: &Option<TelegramChatRecapsOptions>,
    mode: AutoRecapSendMode,
) -> (out: Vec<Statement>)
    ensures
        statement::statement_models(out@) == mode_change(*new, *found, mode),
{
    let mut out: Vec<Statement> = Vec::new();
    match found {
        None => {
            out.push(
                insert(new.backend, new.id, new.chat_id, mode.as_stored(), 0, false, new.now),
            );
        },
        Some(options) => {
            if options.auto_recap_send_mode != mode.as_stored() {
                out.push(bind_int(SET_SEND_MODE, mode.as_stored(), new.chat_id));
            }
        },
    }
    assert(statement::statement_models(out@) =~= mode_change(*new, *found, mode));
    out
}

/// Set the daily rate, whatever it is.
pub fn set_rates_per_day(
    new: &NewOptions<'_>,
    found: &Option<TelegramChatRecapsOptions>,
    rates_per_day: i64,
) -> (out: Vec<Statement>)
    ensures
        statement::statement_models(out@) == creation(*new, *found) + seq![
            statement::bound(
                SET_RATES_PER_DAY@,
                seq![ValueModel::Int(rates_per_day), ValueModel::Int(new.chat_id)],
            ),
        ],
{
    let mut out: Vec<Statement> = Vec::new();
    if found.is_none() {
        out.push(first_enable(new));
    }
    out.push(bind_int(SET_RATES_PER_DAY, rates_per_day, new.chat_id));
    assert(statement::statement_models(out@) =~= creation(*new, *found) + seq![
        statement::bound(
            SET_RATES_PER_DAY@,
            seq![ValueModel::Int(rates_per_day), ValueModel::Int(new.chat_id)],
        ),
    ]);
    out
}

/// The statements that switching pinning takes: new options start unpinned.
pub open spec fn pin_change(
    new: NewOptions<'_>,
    found: Option<TelegramChatRecapsOptions>,
    pin: bool,
) -> Seq<StatementModel> {
    let pinned = match found {
        Some(options) => options.pin_auto_recap_message,
        None => false,
    };
    creation(new, found) + if pinned == pin {
        Seq::empty()
    } else {
        seq![
            statement::bound(
                SET_PIN@,
                seq![ValueModel::Flag(pin), ValueModel::Int(new.chat_id)],
            ),
        ]
    }
}

fn set_pin(
    new: &NewOptions<'_>,
    found: &Option<TelegramChatRecapsOptions>,
    pin: bool,
) -> (out: Vec<Statement>)
    ensures
        statement::statement_models(out@) == pin_change(*new, *found, pin),
{
    let mut out: Vec<Statement> = Vec::new();
    let pinned: bool = match found {
        Some(options) => options.pin_auto_recap_message,
        None => {
            out.push(first_enable(new));
            false
        },
    };
    if pinned != pin {
        out.push(bind_flag(SET_PIN, pin, new.chat_id));
    }
    assert(statement::statement_models(out@) =~= pin_change(*new, *found, pin));
    out
}

/// Switch pinning on.
pub fn set_pin_enabled(
    new: &NewOptions<'_>,
    found: &Option<TelegramChatRecapsOptions>,
) -> (out: Vec<Statement>)
    ensures
        statement::statement_models(out@) == pin_change(*new, *found, true),
{
    set_pin(new, found, true)
}

/// Switch pinning off.
pub fn set_pin_disabled(
    new: &NewOptions<'_>,
    found: &Option<TelegramChatRecapsOptions>,
) -> (out: Vec<Statement>)
    ensures
        statement::statement_models(out@) == pin_change(*new, *found, false),
{
    set_pin(new, found, false)
}

/// The pause between manual recaps in seconds: a chat can make it longer than configured,
/// never shorter.
pub open spec fn manual_rate(option: Option<TelegramChatRecapsOptions>, configured: i64) -> i64 {
    match option {
        Some(options) => if options.manual_recap_rate_per_seconds > configured {
            options.manual_recap_rate_per_seconds
        } else {
            configured
        },
        None => configured,
    }
}

/// The pause between manual recaps in seconds.
pub fn manual_rate_per_seconds(
    option: Option<&TelegramChatRecapsOptions>,
    configured_seconds: i64,
) -> (r: i64)
    ensures
        r == manual_rate(
            match option {
                Some(options) => Some(*options),
                None => None,
            },
            configured_seconds,
        ),
{
    match option {
        Some(options) => if options.manual_recap_rate_per_seconds > configured_seconds {
            options.manual_recap_rate_per_seconds
        } else {
            configured_seconds
        },
        None => configured_seconds,
    }
}

/// The pause is never below the configured one.
pub proof fn lemma_manual_rate_floor(option: Option<TelegramChatRecapsOptions>, configured: i64)
    ensures
        manual_rate(option, configured) >= configured,
{
}

/// Remove the options of a chat.
pub fn delete_by_chat_id(chat_id: i64) -> (s: Statement)
    ensures
        s@ == statement::bound(
            DELETE_BY_CHAT_ID@,
            seq![
                ValueModel::Int(chat_id),
            ],
        ),
{
    bind(
        DELETE_BY_CHAT_ID,
        vec![
            SqlValue::Int(chat_id),
        ],
    )
}

/// Move the options onto a new chat.
pub fn migrate_chat_id(from_chat_id: i64, to_chat_id: i64) -> (s: Statement)
    ensures
        s@ == statement::bound(
            MIGRATE_CHAT_ID@,
            seq![
                ValueModel::Int(to_chat_id),
                ValueModel::Int(from_chat_id),
            ],
        ),
{
    bind(
        MIGRATE_CHAT_ID,
        vec![
            SqlValue::Int(to_chat_id),
            SqlValue::Int(from_chat_id),
        ],
    )
}

} // verus!
