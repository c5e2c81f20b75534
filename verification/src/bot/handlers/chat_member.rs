//! Changes of the bot's own membership.

use vstd::prelude::*;

use crate::db::chat_cleanup::{self, prune_chat_data_after_bot_left};
use crate::db::statement::{self, ChatStep};

verus! {

/// What the bot's own status in a chat has become.
#[derive(Debug, Clone, Copy, PartialEq, Eq, Structural)]
pub enum OwnStatus {
    Left,
    /// Removed, or anything else.
    Other,
}

/// What is removed once the bot's status has changed: only leaving removes anything.
pub fn handle_my_chat_member_plan(status: OwnStatus, chat_id: i64) -> (r: Option<Vec<ChatStep>>)
    ensures
        match r {
            Some(steps) => status == OwnStatus::Left && statement::step_models(steps@)
                == chat_cleanup::steps(chat_id),
            None => status != OwnStatus::Left,
        },
{
    match status {
        OwnStatus::Left => Some(prune_chat_data_after_bot_left(chat_id)),
        OwnStatus::Other => None,
    }
}

} // verus!
