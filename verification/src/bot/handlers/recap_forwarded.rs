//! Recaps of messages that a user forwards to the bot.

use vstd::prelude::*;

use crate::bot::handlers::recap_manual;
use crate::bot::users::{self, TelegramUser};
use crate::reply::Reply;
use crate::services::autorecap::{self, CondensedOutcome};
use crate::services::recap_delivery::DeliverySettings;
use crate::services::recap_generation::{
    PrivateForwardedDetailedRecap, PrivateForwardedReplayChatHistory,
};
use crate::services::rich_recap::{self, RichRecapSummaryConfig, SummaryInputs};
use crate::text::{self, joined2, joined3};

verus! {

pub const PRIVATE_ONLY_MESSAGE: &'static str = "该命令当前只能在私聊中使用哦！";

pub const START_MESSAGE: &'static str =
    "没问题，请将你需要总结的消息在 2 小时内发给我吧。发送完毕后可以通过发送 /recap_forwarded 给我来开始总结哦！";

pub const WAITING_MESSAGE: &'static str = "正在为已经接收到的聊天记录生成回顾，请稍等...";

pub const INSUFFICIENT_MESSAGE: &'static str =
    "目前收到的聊天记录不足 5 条哦，要再多发送给我一些之后之后再试试吗？";

pub const GENERATION_FAILURE_MESSAGE: &'static str = "聊天记录回顾生成失败，请稍后再试！";

pub const DELIVERY_FAILURE_MESSAGE: &'static str = "聊天记录回顾发送失败，请稍后再试！";

pub const COMPLETION_MESSAGE: &'static str =
    "总结完成，如果你觉得不满意，可以再次发送 /recap_forwarded 重新生成哦！如果觉得满意，并且希望进行其他的总结操作，可以在开始前发送 /cancel 来清空当前已经接收到的消息，如果不进行操作，缓存的消息将会在 2 小时后被自动清理。";

pub const SESSION_ERROR: &'static str = "发生了一些错误，请稍后再试";

/// What stands for the condensed recap where there is nothing else.
pub const DEFAULT_CONDENSED: &'static str = "轉發訊息的聊天回顧";

/// The title of a recap of forwarded messages.
pub const FORWARDED_TITLE: &'static str = "轉發訊息";

// ---------------------------------------------------------------------------
// Beginning
// ---------------------------------------------------------------------------

/// What is to be done to begin receiving.
#[derive(Debug, Clone, Copy, PartialEq, Eq)]
pub enum BeginStep {
    /// Open the session of the user.
    Open { user_id: i64 },
    /// Say this, in reply to the command or not, and end.
    Say { text: &'static str, reply: bool },
}

/// What is to be done to begin receiving, where `user_id` is the number of the sender.
pub fn handle_recap_forwarded_start_step(
    in_private: bool,
    user_id: Option<i64>,
    store_available: bool,
    opened: &Reply<()>,
) -> (step: BeginStep)
    ensures
        match step {
            BeginStep::Say { text, reply } => if !in_private {
                text@ == PRIVATE_ONLY_MESSAGE@ && !reply
            } else if user_id is None || !store_available || *opened is Failed {
                text@ == SESSION_ERROR@ && !reply
            } else {
                *opened is Got && text@ == START_MESSAGE@ && reply
            },
            BeginStep::Open { user_id: opens } => in_private && user_id == Some(opens)
                && store_available && *opened is Pending,
        },
{
    if !in_private {
        return BeginStep::Say { text: PRIVATE_ONLY_MESSAGE, reply: false };
    }
    match user_id {
        None => BeginStep::Say { text: SESSION_ERROR, reply: false },
        Some(user_id) => {
            if !store_available {
                return BeginStep::Say { text: SESSION_ERROR, reply: false };
            }
            match opened {
                Reply::Pending => BeginStep::Open { user_id },
                Reply::Failed => BeginStep::Say { text: SESSION_ERROR, reply: false },
                Reply::Got(_) => BeginStep::Say { text: START_MESSAGE, reply: true },
            }
        },
    }
}

// ---------------------------------------------------------------------------
// The recap
// ---------------------------------------------------------------------------

/// What is known of a recap of forwarded messages so far.
pub struct ForwardedRecap {
    pub in_private: bool,
    /// Who sent the command.
    pub from: Option<TelegramUser>,
    /// The chat of the command, and the command itself.
    pub chat_id: i64,
    pub message_id: i32,
    pub waiting_sent: bool,
    pub store_available: bool,
    /// What was received, read; a message that cannot be read counts as a failure.
    pub histories: Reply<Vec<PrivateForwardedReplayChatHistory>>,
    /// The limits of the models can be worked with.
    pub generation_ready: bool,
    pub detailed: Reply<PrivateForwardedDetailedRecap>,
    pub condensed: Option<CondensedOutcome>,
    pub delivered: Reply<()>,
    pub waiting_deleted: bool,
}

/// What is to be done for a recap of forwarded messages.
#[derive(Debug, PartialEq, Eq)]
pub enum ForwardedStep {
    /// Tell the user to wait; a failure does not matter.
    SendWaiting { user_id: i64 },
    /// Read what was received.
    ReadBatch { user_id: i64 },
    Summarize { user_id: i64 },
    /// Make the condensed recap of this; a failure does not matter.
    Condense { history: String },
    /// Deliver these messages.
    Deliver { settings: DeliverySettings, parts: Vec<String> },
    /// Take the waiting message away, if there is one; a failure does not matter.
    DeleteWaiting,
    /// Say this, in reply to the command or not, and end.
    Say { text: &'static str, reply: bool },
}

#[verifier::ext_equal]
pub enum ForwardedModel {
    SendWaiting(i64),
    ReadBatch(i64),
    Summarize(i64),
    Condense(Seq<char>),
    Deliver(DeliverySettings, Seq<Seq<char>>),
    DeleteWaiting,
    Say(Seq<char>, bool),
}

impl View for ForwardedStep {
    type V = ForwardedModel;

    open spec fn view(&self) -> ForwardedModel {
        match self {
            ForwardedStep::SendWaiting { user_id } => ForwardedModel::SendWaiting(*user_id),
            ForwardedStep::ReadBatch { user_id } => ForwardedModel::ReadBatch(*user_id),
            ForwardedStep::Summarize { user_id } => ForwardedModel::Summarize(*user_id),
            ForwardedStep::Condense { history } => ForwardedModel::Condense(history@),
            ForwardedStep::Deliver { settings, parts } => ForwardedModel::Deliver(
                *settings,
                text::texts(parts@),
            ),
            ForwardedStep::DeleteWaiting => ForwardedModel::DeleteWaiting,
            ForwardedStep::Say { text, reply } => ForwardedModel::Say(text@, *reply),
        }
    }
}

/// Who a forwarded message is from: the name that is shown, or else the username.
pub open spec fn actor_of(history: PrivateForwardedReplayChatHistory) -> Seq<char> {
    if history.actor_display_name@.len() == 0 {
        history.actor_username@
    } else {
        history.actor_display_name@
    }
}

/// What the condensed recap is made from: every message in a line of its own.
pub open spec fn source_from(histories: Seq<PrivateForwardedReplayChatHistory>, i: int) -> Seq<char>
    decreases histories.len() - i,
{
    if i < 0 || i >= histories.len() {
        Seq::empty()
    } else {
        actor_of(histories[i]) + ": "@ + histories[i].text@ + "\n"@ + source_from(histories, i + 1)
    }
}

/// What the condensed recap is made from.
pub fn source_history(histories: &Vec<PrivateForwardedReplayChatHistory>) -> (out: String)
    ensures
        out@ == source_from(histories@, 0),
{
    let mut out: String = String::new();
    let mut i: usize = 0;
    assert(out@ + source_from(histories@, 0) =~= source_from(histories@, 0));
    while i < histories.len()
        invariant
            i <= histories.len(),
            out@ + source_from(histories@, i as int) == source_from(histories@, 0),
        decreases histories.len() - i,
    {
        let ghost before = out@;
        let history: &PrivateForwardedReplayChatHistory = &histories[i];
        let actor: &str = if history.actor_display_name.as_str().is_empty() {
            history.actor_username.as_str()
        } else {
            history.actor_display_name.as_str()
        };
        let head: String = joined3(actor, ": ", history.text.as_str());
        let line: String = joined2(head.as_str(), "\n");
        out.append(line.as_str());
        i = i + 1;
        assert(out@ + source_from(histories@, i as int) =~= before + source_from(
            histories@,
            i - 1,
        ));
    }
    assert(out@ =~= source_from(histories@, 0));
    out
}

/// The messages of a recap of forwarded messages.
pub open spec fn forwarded_messages(
    from: TelegramUser,
    user_id: i64,
    detailed: PrivateForwardedDetailedRecap,
    outcome: CondensedOutcome,
) -> Seq<Seq<char>> {
    let summaries = recap_manual::filled(detailed.summaries@, 0);
    autorecap::messages_of(
        SummaryInputs {
            title: FORWARDED_TITLE@,
            initiator_name: users::shown_name(from),
            initiator_user_id: user_id,
            condensed_summary: autorecap::shown_condensed(outcome, summaries, DEFAULT_CONDENSED@),
            condensed_trace: Some(autorecap::condensed_trace_of(outcome)),
            recap_trace: Some(detailed.trace@),
            ..rich_recap::no_inputs()
        },
        summaries,
    )
}

/// How a recap of forwarded messages is delivered: in reply to the command.
pub open spec fn forwarded_settings(recap: ForwardedRecap) -> DeliverySettings {
    DeliverySettings {
        chat_id: recap.chat_id,
        reply_to_message_id: recap.message_id,
        disable_notification: false,
        allow_sending_without_reply: true,
    }
}

/// What is to be done once enough was received.
pub open spec fn with_histories(
    recap: ForwardedRecap,
    from: TelegramUser,
    user_id: i64,
    histories: Seq<PrivateForwardedReplayChatHistory>,
) -> ForwardedModel {
    if !recap.generation_ready {
        ForwardedModel::Say(GENERATION_FAILURE_MESSAGE@, true)
    } else {
        match recap.detailed {
            Reply::Pending => ForwardedModel::Summarize(user_id),
            Reply::Failed => ForwardedModel::Say(GENERATION_FAILURE_MESSAGE@, true),
            Reply::Got(detailed) => if recap_manual::filled(detailed.summaries@, 0).len() == 0 {
                ForwardedModel::Say(GENERATION_FAILURE_MESSAGE@, true)
            } else {
                match recap.condensed {
                    None => ForwardedModel::Condense(source_from(histories, 0)),
                    Some(outcome) => if recap.delivered is Pending {
                        ForwardedModel::Deliver(
                            forwarded_settings(recap),
                            forwarded_messages(from, user_id, detailed, outcome),
                        )
                    } else if !recap.waiting_deleted {
                        ForwardedModel::DeleteWaiting
                    } else if recap.delivered is Failed {
                        ForwardedModel::Say(DELIVERY_FAILURE_MESSAGE@, true)
                    } else {
                        ForwardedModel::Say(COMPLETION_MESSAGE@, true)
                    },
                }
            },
        }
    }
}

/// Who sent the command, and their number, where it is in range.
pub open spec fn sender(from: Option<TelegramUser>) -> Option<(TelegramUser, i64)> {
    match from {
        Some(user) => match users::user_number(user) {
            Some(user_id) => Some((user, user_id)),
            None => None,
        },
        None => None,
    }
}

/// What is to be done for a recap of forwarded messages: at least five are needed.
pub open spec fn forwarded_step(recap: ForwardedRecap) -> ForwardedModel {
    if !recap.in_private {
        ForwardedModel::Say(PRIVATE_ONLY_MESSAGE@, false)
    } else {
        match sender(recap.from) {
            None => ForwardedModel::Say(GENERATION_FAILURE_MESSAGE@, true),
            Some((from, user_id)) => if !recap.waiting_sent {
                ForwardedModel::SendWaiting(user_id)
            } else if !recap.store_available {
                ForwardedModel::Say(GENERATION_FAILURE_MESSAGE@, true)
            } else {
                match recap.histories {
                    Reply::Pending => ForwardedModel::ReadBatch(user_id),
                    Reply::Failed => ForwardedModel::Say(GENERATION_FAILURE_MESSAGE@, true),
                    Reply::Got(histories) => if histories@.len() < 5 {
                        ForwardedModel::Say(INSUFFICIENT_MESSAGE@, true)
                    } else {
                        with_histories(recap, from, user_id, histories@)
                    },
                }
            },
        }
    }
}

fn generation_failed() -> (step: ForwardedStep)
    ensures
        step@ == ForwardedModel::Say(GENERATION_FAILURE_MESSAGE@, true),
{
    ForwardedStep::Say { text: GENERATION_FAILURE_MESSAGE, reply: true }
}

fn compose_forwarded(
    from: &TelegramUser,
    user_id: i64,
    detailed: &PrivateForwardedDetailedRecap,
    outcome: &CondensedOutcome,
) -> (messages: Vec<String>)
    ensures
        text::texts(messages@) == forwarded_messages(*from, user_id, *detailed, *outcome),
{
    let summaries: Vec<String> = recap_manual::filled_summaries(&detailed.summaries);
    let (shown, trace) = autorecap::settle_condensed(outcome, &summaries, DEFAULT_CONDENSED);
    let name: String = users::user_display_name(from);
    let config = RichRecapSummaryConfig {
        title: FORWARDED_TITLE,
        hours: 0,
        automatic: false,
        initiator_name: name.as_str(),
        initiator_user_id: user_id,
        condensed_summary: shown.as_str(),
        general_group_notice: false,
        subscription_chat_title: "",
        condensed_trace: Some(trace),
        recap_trace: Some(&detailed.trace),
    };
    autorecap::recap_messages(&config, &summaries)
}

fn received_step(
    recap: &ForwardedRecap,
    from: &TelegramUser,
    user_id: i64,
    histories: &Vec<PrivateForwardedReplayChatHistory>,
) -> (step: ForwardedStep)
    ensures
        step@ == with_histories(*recap, *from, user_id, histories@),
{
    if !recap.generation_ready {
        return generation_failed();
    }
    match &recap.detailed {
        Reply::Pending => ForwardedStep::Summarize { user_id },
        Reply::Failed => generation_failed(),
        Reply::Got(detailed) => {
            let kept: Vec<String> = recap_manual::filled_summaries(&detailed.summaries);
            assert(text::texts(kept@).len() == kept@.len());
            if kept.len() == 0 {
                return generation_failed();
            }
            match &recap.condensed {
                None => ForwardedStep::Condense { history: source_history(histories) },
                Some(outcome) => match &recap.delivered {
                    Reply::Pending => ForwardedStep::Deliver {
                        settings: DeliverySettings {
                            chat_id: recap.chat_id,
                            reply_to_message_id: recap.message_id,
                            disable_notification: false,
                            allow_sending_without_reply: true,
                        },
                        parts: compose_forwarded(from, user_id, detailed, outcome),
                    },
                    Reply::Failed => if !recap.waiting_deleted {
                        ForwardedStep::DeleteWaiting
                    } else {
                        ForwardedStep::Say { text: DELIVERY_FAILURE_MESSAGE, reply: true }
                    },
                    Reply::Got(_) => if !recap.waiting_deleted {
                        ForwardedStep::DeleteWaiting
                    } else {
                        ForwardedStep::Say { text: COMPLETION_MESSAGE, reply: true }
                    },
                },
            }
        },
    }
}

/// What is to be done for a recap of forwarded messages.
pub fn handle_recap_forwarded_step(recap: &ForwardedRecap) -> (step: ForwardedStep)
    ensures
        step@ == forwarded_step(*recap),
{
    if !recap.in_private {
        return ForwardedStep::Say { text: PRIVATE_ONLY_MESSAGE, reply: false };
    }
    let from: &TelegramUser = match &recap.from {
        Some(from) => from,
        None => {
            return generation_failed();
        },
    };
    let user_id: i64 = match users::telegram_user_id(from) {
        Some(user_id) => user_id,
        None => {
            return generation_failed();
        },
    };
    if !recap.waiting_sent {
        return ForwardedStep::SendWaiting { user_id };
    }
    if !recap.store_available {
        return generation_failed();
    }
    match &recap.histories {
        Reply::Pending => ForwardedStep::ReadBatch { user_id },
        Reply::Failed => generation_failed(),
        Reply::Got(histories) => {
            if histories.len() < 5 {
                return ForwardedStep::Say { text: INSUFFICIENT_MESSAGE, reply: true };
            }
            received_step(recap, from, user_id, histories)
        },
    }
}

/// A recap of forwarded messages needs at least five of them and a detailed recap, and
/// it is delivered where the command was given.
pub proof fn lemma_delivery_needs_messages(recap: ForwardedRecap)
    requires
        forwarded_step(recap) is Deliver,
    ensures
        recap.histories matches Reply::Got(histories) && histories@.len() >= 5,
        recap.detailed matches Reply::Got(detailed) && recap_manual::filled(
            detailed.summaries@,
            0,
        ).len() > 0,
        forwarded_step(recap)->Deliver_0.chat_id == recap.chat_id,
{
}

} // verus!
