//! What moves along when a group becomes a supergroup.

use vstd::prelude::*;

use crate::db::models::CHAT_TYPE_SUPERGROUP;
use crate::db::statement::{self, ChatStep, StatementModel, ValueModel};
use crate::db::{chat_history, feature_flags, recap_logs, recap_options, subscribers};

verus! {

/// The steps in order.
pub open spec fn steps(from_chat_id: i64, to_chat_id: i64) -> Seq<(Seq<char>, StatementModel)> {
    seq![
        ("feature flags"@, statement::bound(feature_flags::MIGRATE_CHAT_ID@, seq![ValueModel::Int(to_chat_id), ValueModel::Text(CHAT_TYPE_SUPERGROUP@), ValueModel::Int(from_chat_id)])),
        ("recap options"@, statement::bound(recap_options::MIGRATE_CHAT_ID@, seq![ValueModel::Int(to_chat_id), ValueModel::Int(from_chat_id)])),
        ("subscribers"@, statement::bound(subscribers::MIGRATE_CHAT_ID@, seq![ValueModel::Int(to_chat_id), ValueModel::Int(from_chat_id)])),
        ("chat histories"@, statement::bound(chat_history::MIGRATE_CHAT_ID@, seq![ValueModel::Int(to_chat_id), ValueModel::Text(CHAT_TYPE_SUPERGROUP@), ValueModel::Int(from_chat_id)])),
        ("recap logs"@, statement::bound(recap_logs::MIGRATE_CHAT_ID@, seq![ValueModel::Int(to_chat_id), ValueModel::Int(from_chat_id)])),
    ]
}

/// What moves onto the supergroup that a group has become. A step that fails does not stop
/// the next.
pub fn migrate_chat_data(from_chat_id: i64, to_chat_id: i64) -> (out: Vec<ChatStep>)
    ensures
        statement::step_models(out@) == steps(from_chat_id, to_chat_id),
{
    let mut steps: Vec<ChatStep> = Vec::new();
    steps.push(ChatStep { name: "feature flags", statement: feature_flags::migrate_chat_id(from_chat_id, to_chat_id) });
    steps.push(ChatStep { name: "recap options", statement: recap_options::migrate_chat_id(from_chat_id, to_chat_id) });
    steps.push(ChatStep { name: "subscribers", statement: subscribers::migrate_chat_id(from_chat_id, to_chat_id) });
    steps.push(ChatStep { name: "chat histories", statement: chat_history::migrate_chat_id(from_chat_id, to_chat_id) });
    steps.push(ChatStep { name: "recap logs", statement: recap_logs::migrate_chat_id(from_chat_id, to_chat_id) });
    assert(statement::step_models(steps@) =~= self::steps(from_chat_id, to_chat_id));
    steps
}

} // verus!
