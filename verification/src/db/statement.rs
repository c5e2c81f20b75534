//! Statements with their bound values, as they are handed to the database.

use vstd::prelude::*;

verus! {

/// A value bound to a placeholder.
#[derive(Debug, PartialEq, Eq)]
pub enum SqlValue {
    Int(i64),
    Flag(bool),
    Text(String),
    /// A missing integer.
    NoInt,
    /// A missing text.
    NoText,
}

#[verifier::ext_equal]
pub enum ValueModel {
    Int(i64),
    Flag(bool),
    Text(Seq<char>),
    NoInt,
    NoText,
}

impl View for SqlValue {
    type V = ValueModel;

    open spec fn view(&self) -> ValueModel {
        match self {
            SqlValue::Int(n) => ValueModel::Int(*n),
            SqlValue::Flag(b) => ValueModel::Flag(*b),
            SqlValue::Text(t) => ValueModel::Text(t@),
            SqlValue::NoInt => ValueModel::NoInt,
            SqlValue::NoText => ValueModel::NoText,
        }
    }
}

/// The value that is bound for an integer that may be missing.
pub open spec fn int_or_none(n: Option<i64>) -> ValueModel {
    match n {
        Some(n) => ValueModel::Int(n),
        None => ValueModel::NoInt,
    }
}

/// The value that is bound for a text that may be missing.
pub open spec fn text_or_none(t: Option<Seq<char>>) -> ValueModel {
    match t {
        Some(t) => ValueModel::Text(t),
        None => ValueModel::NoText,
    }
}

pub open spec fn value_models(values: Seq<SqlValue>) -> Seq<ValueModel> {
    Seq::new(values.len(), |i: int| values[i]@)
}

/// A statement, with the values for its placeholders in order.
#[derive(Debug, PartialEq, Eq)]
pub struct Statement {
    pub sql: String,
    pub values: Vec<SqlValue>,
}

#[verifier::ext_equal]
pub struct StatementModel {
    pub sql: Seq<char>,
    pub values: Seq<ValueModel>,
}

impl View for Statement {
    type V = StatementModel;

    open spec fn view(&self) -> StatementModel {
        StatementModel { sql: self.sql@, values: value_models(self.values@) }
    }
}

/// The statement `sql` with `values` bound.
pub open spec fn bound(sql: Seq<char>, values: Seq<ValueModel>) -> StatementModel {
    StatementModel { sql, values }
}

pub open spec fn statement_models(statements: Seq<Statement>) -> Seq<StatementModel> {
    Seq::new(statements.len(), |i: int| statements[i]@)
}

/// One of several statements that are run for a chat, each on its own.
#[derive(Debug, PartialEq, Eq)]
pub struct ChatStep {
    pub name: &'static str,
    pub statement: Statement,
}

pub open spec fn step_models(steps: Seq<ChatStep>) -> Seq<(Seq<char>, StatementModel)> {
    Seq::new(steps.len(), |i: int| (steps[i].name@, steps[i].statement@))
}

/// The statement `sql` with `values` bound.
pub fn bind(sql: &str, values: Vec<SqlValue>) -> (s: Statement)
    ensures
        s@ == bound(sql@, value_models(values@)),
{
    Statement { sql: sql.to_owned(), values }
}

/// The value that is bound for a text.
pub fn text_value(text: &str) -> (v: SqlValue)
    ensures
        v@ == ValueModel::Text(text@),
{
    SqlValue::Text(text.to_owned())
}

/// The statement `sql` with a value and the chat it is for bound.
pub fn bind_int(sql: &str, n: i64, chat_id: i64) -> (s: Statement)
    ensures
        s@ == bound(sql@, seq![ValueModel::Int(n), ValueModel::Int(chat_id)]),
{
    bind(sql, vec![SqlValue::Int(n), SqlValue::Int(chat_id)])
}

/// The statement `sql` with a value and the chat it is for bound.
pub fn bind_flag(sql: &str, flag: bool, chat_id: i64) -> (s: Statement)
    ensures
        s@ == bound(sql@, seq![ValueModel::Flag(flag), ValueModel::Int(chat_id)]),
{
    bind(sql, vec![SqlValue::Flag(flag), SqlValue::Int(chat_id)])
}

/// The statement `sql` with a value and the chat it is for bound.
pub fn bind_text(sql: &str, text: &str, chat_id: i64) -> (s: Statement)
    ensures
        s@ == bound(sql@, seq![ValueModel::Text(text@), ValueModel::Int(chat_id)]),
{
    bind(sql, vec![text_value(text), SqlValue::Int(chat_id)])
}

/// The value that is bound for an integer that may be missing.
pub fn optional_int(n: Option<i64>) -> (v: SqlValue)
    ensures
        v@ == int_or_none(n),
{
    match n {
        Some(n) => SqlValue::Int(n),
        None => SqlValue::NoInt,
    }
}

/// The value that is bound for a text that may be missing.
pub fn optional_text(t: &Option<String>) -> (v: SqlValue)
    ensures
        v@ == text_or_none(crate::text::viewed(*t)),
{
    match t {
        Some(t) => SqlValue::Text(t.clone()),
        None => SqlValue::NoText,
    }
}

} // verus!
