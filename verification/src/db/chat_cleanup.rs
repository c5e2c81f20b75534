//! What is removed once the bot has left a chat.

use vstd::prelude::*;

use crate::db::statement::{self, ChatStep, StatementModel, ValueModel};
use crate::db::{chat_history, feature_flags, recap_logs, recap_options, subscribers};

verus! {

/// The steps in order.
pub open spec fn steps(chat_id: i64) -> Seq<(Seq<char>, StatementModel)> {
    seq![
        ("subscribers"@, statement::bound(subscribers::DELETE_BY_CHAT_ID@, seq![ValueModel::Int(chat_id)])),
        ("feature flags"@, statement::bound(feature_flags::DELETE_BY_CHAT_ID@, seq![ValueModel::Int(chat_id)])),
        ("recap options"@, statement::bound(recap_options::DELETE_BY_CHAT_ID@, seq![ValueModel::Int(chat_id)])),
        ("chat histories"@, statement::bound(chat_history::DELETE_BY_CHAT_ID@, seq![ValueModel::Int(chat_id)])),
        ("recap log content"@, statement::bound(recap_logs::PRUNE_CONTENT@, seq![ValueModel::Text(""@), ValueModel::Text(""@), ValueModel::Int(chat_id)])),
    ]
}

/// What is removed once the bot has left a chat. A step that fails does not stop the next,
/// and the logged recaps stay with their texts blanked.
pub fn prune_chat_data_after_bot_left(chat_id: i64) -> (out: Vec<ChatStep>)
    ensures
        statement::step_models(out@) == steps(chat_id),
{
    let mut steps: Vec<ChatStep> = Vec::new();
    steps.push(ChatStep { name: "subscribers", statement: subscribers::delete_all_by_chat_id(chat_id) });
    steps.push(ChatStep { name: "feature flags", statement: feature_flags::delete_by_chat_id(chat_id) });
    steps.push(ChatStep { name: "recap options", statement: recap_options::delete_by_chat_id(chat_id) });
    steps.push(ChatStep { name: "chat histories", statement: chat_history::delete_all_by_chat_id(chat_id) });
    steps.push(ChatStep { name: "recap log content", statement: recap_logs::prune_content_by_chat_id(chat_id) });
    assert(statement::step_models(steps@) =~= self::steps(chat_id));
    steps
}

} // verus!
