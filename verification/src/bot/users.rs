//! Who sends a message.

use vstd::prelude::*;

use crate::text::{self, joined3, same};

verus! {

/// The number of the account that administrators post anonymously through.
pub const GROUP_ANONYMOUS_BOT_ID: u64 = 1_087_968_824;

/// What is read of a Telegram account.
#[derive(Debug, PartialEq, Eq)]
pub struct TelegramUser {
    pub id: u64,
    pub is_bot: bool,
    pub username: Option<String>,
    pub first_name: String,
    pub last_name: Option<String>,
}

/// The account that administrators post anonymously through.
pub open spec fn anonymous(user: TelegramUser) -> bool {
    user.id == GROUP_ANONYMOUS_BOT_ID && user.is_bot && text::viewed(user.username) == Some(
        "GroupAnonymousBot"@,
    ) && user.first_name@ == "Group"@
}

/// Whether an account is the one that administrators post anonymously through: all four
/// of its marks count.
pub fn is_group_anonymous_bot(user: &TelegramUser) -> (r: bool)
    ensures
        r == anonymous(*user),
{
    user.id == GROUP_ANONYMOUS_BOT_ID && user.is_bot && match &user.username {
        Some(username) => same(username.as_str(), "GroupAnonymousBot"),
        None => false,
    } && same(user.first_name.as_str(), "Group")
}

/// The number of an account, where it is in range.
pub open spec fn user_number(user: TelegramUser) -> Option<i64> {
    if user.id <= i64::MAX {
        Some(user.id as i64)
    } else {
        None
    }
}

/// The number of an account, where it is in range.
pub fn telegram_user_id(user: &TelegramUser) -> (r: Option<i64>)
    ensures
        r == user_number(*user),
{
    if user.id <= 9_223_372_036_854_775_807 {
        Some(user.id as i64)
    } else {
        None
    }
}

/// The name that is shown for an account: its names, or else its username.
pub open spec fn display_name(first: Seq<char>, last: Seq<char>, username: Seq<char>) -> Seq<char> {
    let full = text::trimmed(first + " "@ + last);
    if full.len() == 0 {
        username
    } else {
        full
    }
}

/// The name that is shown for an account.
pub fn actor_display_name(first_name: &str, last_name: &str, username: &str) -> (out: String)
    ensures
        out@ == display_name(first_name@, last_name@, username@),
{
    let both: String = joined3(first_name, " ", last_name);
    let full: String = text::trim(both.as_str());
    if full.as_str().is_empty() {
        username.to_owned()
    } else {
        full
    }
}

pub open spec fn or_nothing(found: Option<String>) -> Seq<char> {
    match found {
        Some(text) => text@,
        None => ""@,
    }
}

fn text_or_nothing(found: &Option<String>) -> (out: &str)
    ensures
        out@ == or_nothing(*found),
{
    match found {
        Some(text) => text.as_str(),
        None => "",
    }
}

/// The name that is shown for an account.
pub open spec fn shown_name(user: TelegramUser) -> Seq<char> {
    display_name(user.first_name@, or_nothing(user.last_name), or_nothing(user.username))
}

/// The name that is shown for an account.
pub fn user_display_name(user: &TelegramUser) -> (out: String)
    ensures
        out@ == shown_name(*user),
{
    actor_display_name(
        user.first_name.as_str(),
        text_or_nothing(&user.last_name),
        text_or_nothing(&user.username),
    )
}

} // verus!
