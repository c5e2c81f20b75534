//! Groups that become supergroups.

use vstd::prelude::*;

use crate::config::{self, Locale};
use crate::db::migration::{self, migrate_chat_data};
use crate::db::models::DEFAULT_FEATURE_LANGUAGE;
use crate::db::statement::{self, ChatStep};
use crate::reply::Reply;

verus! {

/// The key of what the supergroup is told, with the bot's `Name` and `Username`.
pub const NOTIFICATION_KEY: &'static str = "migration.notification";

/// What moves when a supergroup says which group it was: a message without that moves
/// nothing.
pub fn handle_chat_migration_plan(migrate_from: Option<i64>, chat_id: i64) -> (r: Option<
    Vec<ChatStep>,
>)
    ensures
        match r {
            Some(steps) => migrate_from matches Some(from) && statement::step_models(steps@)
                == migration::steps(from, chat_id),
            None => migrate_from is None,
        },
{
    match migrate_from {
        Some(from) => Some(migrate_chat_data(from, chat_id)),
        None => None,
    }
}

/// The language that the supergroup is told in: the one that is stored for it, or English
/// where that could not be read.
pub fn notification_locale(language: &Reply<String>) -> (r: Locale)
    ensures
        r == config::locale_of(
            match *language {
                Reply::Got(code) => Some(code@),
                _ => Some(DEFAULT_FEATURE_LANGUAGE@),
            },
        ),
{
    match language {
        Reply::Got(code) => Locale::from_value(Some(code.as_str())),
        _ => Locale::from_value(Some(DEFAULT_FEATURE_LANGUAGE)),
    }
}

} // verus!
