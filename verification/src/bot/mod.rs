//! The bot: its commands, what a message or a button leads to, and how updates reach it.

use vstd::prelude::*;

use crate::text::{self, joined3, CharClass};

pub mod button_laws;
pub mod commands;
pub mod handlers;
pub mod keyboards;
pub mod middleware;
pub mod payloads;
pub mod users;
pub mod wording_laws;

verus! {

/// The port that a webhook listens on where none is configured.
pub const DEFAULT_WEBHOOK_PORT: u16 = 8443;

/// How updates reach the bot.
#[derive(Debug, PartialEq, Eq)]
pub enum UpdateMode {
    /// The bot asks for them.
    Polling,
    /// They are sent to this address, and the bot listens on this port.
    Webhook { url: String, port: u16 },
}

/// The address of a webhook: the configured one with the bot's token behind it.
pub open spec fn webhook_address(configured: Seq<char>, token: Seq<char>) -> Seq<char> {
    text::trim_end_class(configured, CharClass::Exactly('/')) + "/"@ + token
}

/// How updates reach the bot: by webhook where one is configured.
pub fn update_mode(webhook_url: &Option<String>, webhook_port: Option<u16>, token: &str) -> (r:
    UpdateMode)
    ensures
        match (r, webhook_url) {
            (UpdateMode::Polling, None) => true,
            (UpdateMode::Webhook { url, port }, Some(configured)) => {
                &&& url@ == webhook_address(configured@, token@)
                &&& port == match webhook_port {
                    Some(found) => found,
                    None => DEFAULT_WEBHOOK_PORT,
                }
            },
            _ => false,
        },
{
    match webhook_url {
        None => UpdateMode::Polling,
        Some(configured) => {
            let base: String = text::trim_end_of(configured.as_str(), CharClass::Exactly('/'));
            UpdateMode::Webhook {
                url: joined3(base.as_str(), "/", token),
                port: match webhook_port {
                    Some(found) => found,
                    None => DEFAULT_WEBHOOK_PORT,
                },
            }
        },
    }
}

} // verus!
