//! Recaps on demand: the choice of hours, the recap itself, and reactions to it.

use vstd::prelude::*;

use crate::bot::keyboards::{
    self, build_select_hour_keyboard, build_vote_keyboard, KeyboardModel, KeyboardPlan,
};
use crate::bot::payloads::SelectHourCallbackData;
use crate::bot::users::{self, TelegramUser};
use crate::db::models::{
    self, ReactionCounts, ReactionType, TelegramChatHistory, TelegramChatRecapsOptions,
};
use crate::db::recap_options;
use crate::identifier;
use crate::numeral::{self, format_i64};
use crate::redis::recap_state::ManualRecapRateResult;
use crate::reply::Reply;
use crate::services::autorecap::{self, CondensedOutcome};
use crate::services::recap_delivery::DeliverySettings;
use crate::services::recap_generation::GroupDetailedRecap;
use crate::services::rich_recap::{RichRecapSummaryConfig, SummaryInputs};
use crate::text::{self, joined3};

verus! {

pub const AUTO_RECAP_SEND_MODE_PUBLICLY: i64 = 0;

pub const AUTO_RECAP_SEND_MODE_ONLY_PRIVATE_SUBSCRIPTIONS: i64 = 1;

pub const GROUPS_ONLY: &'static str = "只有在群组和超级群组内才可以创建聊天记录回顾哦！";

pub const NOT_ENABLED: &'static str =
    "聊天记录回顾功能在当前群组尚未启用，需要在群组管理员通过 /configure_recap 命令配置功能启用后才可以创建聊天回顾哦。";

pub const RECAP_FAILED: &'static str = "聊天记录回顾生成失败，请稍后再试！";

pub const ASK_HOURS: &'static str = "请问您要为过去几个小时内的聊天创建回顾呢？";

pub const GENERATION_FAILED: &'static str = "聊天記錄回顧生成失敗，請稍後再試！";

pub const DELIVERY_FAILED: &'static str = "聊天記錄回顧發送失敗，請稍後再試！";

// ---------------------------------------------------------------------------
// Texts
// ---------------------------------------------------------------------------

/// The name that is shown for a group.
pub open spec fn group_name(chat_title: Seq<char>) -> Seq<char> {
    if text::is_blank(chat_title) {
        "當前聊天"@
    } else {
        text::trimmed(chat_title)
    }
}

/// The name that is shown for a group.
pub fn group_display_name(chat_title: &str) -> (out: String)
    ensures
        out@ == group_name(chat_title@),
{
    if text::blank(chat_title) {
        "當前聊天".to_owned()
    } else {
        text::trim(chat_title)
    }
}

/// What is said where there are too few messages.
pub open spec fn too_few(hours: int, mode: i64) -> Seq<char> {
    "最近 "@ + numeral::decimal(hours) + if mode
        == AUTO_RECAP_SEND_MODE_ONLY_PRIVATE_SUBSCRIPTIONS {
        " 小時內暫時沒有超過 5 條的聊天記錄可以生成聊天回顧哦，要再等待群內成員多聊點之後再試試嗎？"@
    } else {
        " 小時內暫時沒有超過 5 條的聊天記錄可以生成聊天回顧哦，要再多聊點之後再試試嗎？"@
    }
}

/// What is said where there are too few messages.
pub fn insufficient_histories_message(hours: i64, recap_mode: i64) -> (out: String)
    ensures
        out@ == too_few(hours as int, recap_mode),
{
    let number: String = format_i64(hours);
    if recap_mode == AUTO_RECAP_SEND_MODE_ONLY_PRIVATE_SUBSCRIPTIONS {
        joined3(
            "最近 ",
            number.as_str(),
            " 小時內暫時沒有超過 5 條的聊天記錄可以生成聊天回顧哦，要再等待群內成員多聊點之後再試試嗎？",
        )
    } else {
        joined3(
            "最近 ",
            number.as_str(),
            " 小時內暫時沒有超過 5 條的聊天記錄可以生成聊天回顧哦，要再多聊點之後再試試嗎？",
        )
    }
}

/// A text as HTML shows it, quotes included.
pub open spec fn attribute_escaped(s: Seq<char>) -> Seq<char> {
    text::replaced(
        text::replaced(
            text::replaced(
                text::replaced(text::replaced(s, "&"@, "&amp;"@), "<"@, "&lt;"@),
                ">"@,
                "&gt;"@,
            ),
            "\""@,
            "&quot;"@,
        ),
        "'"@,
        "&#39;"@,
    )
}

/// A text as HTML shows it, quotes included.
pub fn escape_html(source: &str) -> (out: String)
    ensures
        out@ == attribute_escaped(source@),
{
    proof {
        reveal_strlit("&");
        reveal_strlit("<");
        reveal_strlit(">");
        reveal_strlit("\"");
        reveal_strlit("'");
    }
    let a: String = text::replace(source, "&", "&amp;");
    let b: String = text::replace(a.as_str(), "<", "&lt;");
    let c: String = text::replace(b.as_str(), ">", "&gt;");
    let d: String = text::replace(c.as_str(), "\"", "&quot;");
    text::replace(d.as_str(), "'", "&#39;")
}

/// What is shown while a recap is made.
pub open spec fn in_progress(data: SelectHourCallbackData) -> Seq<char> {
    if data.recap_mode == AUTO_RECAP_SEND_MODE_ONLY_PRIVATE_SUBSCRIPTIONS {
        "正在為 <b>"@ + attribute_escaped(data.chat_title@) + "</b> 過去 "@ + numeral::decimal(
            data.hour as int,
        ) + " 個小時的聊天記錄生成回顧，請稍等..."@
    } else {
        "正在為過去 "@ + numeral::decimal(data.hour as int)
            + " 個小時的聊天記錄生成回顧，請稍等..."@
    }
}

/// What is shown while a recap is made.
pub fn in_progress_text(data: &SelectHourCallbackData) -> (out: String)
    ensures
        out@ == in_progress(*data),
{
    let number: String = format_i64(data.hour);
    if data.recap_mode == AUTO_RECAP_SEND_MODE_ONLY_PRIVATE_SUBSCRIPTIONS {
        let title: String = escape_html(data.chat_title.as_str());
        let head: String = joined3("正在為 <b>", title.as_str(), "</b> 過去 ");
        joined3(head.as_str(), number.as_str(), " 個小時的聊天記錄生成回顧，請稍等...")
    } else {
        joined3(
            "正在為過去 ",
            number.as_str(),
            " 個小時的聊天記錄生成回顧，請稍等...",
        )
    }
}

/// How long to wait, in minutes: at least one.
pub open spec fn wait_minutes(ttl_seconds: i64) -> int {
    if ttl_seconds < 120 {
        1
    } else {
        ttl_seconds as int / 60
    }
}

/// What is said to someone who asks too often.
pub open spec fn limited(per_seconds: i64, ttl_seconds: i64) -> Seq<char> {
    "很抱歉，您的操作触发了我们的限制机制，为了保证系统的可用性，本命令每最多 "@ + numeral::decimal(
        per_seconds.wrapping_mul(1_000_000_000) as int,
    ) + " 分钟最多使用一次，请您耐心等待 "@ + numeral::decimal(wait_minutes(ttl_seconds))
        + " 分钟后再试，感谢您的理解和支持。"@
}

/// What is said to someone who asks too often.
pub fn rate_limit_message(per_seconds: i64, ttl_seconds: i64) -> (out: String)
    ensures
        out@ == limited(per_seconds, ttl_seconds),
{
    let shown: String = format_i64(per_seconds.wrapping_mul(1_000_000_000));
    let minutes: i64 = if ttl_seconds < 120 {
        1
    } else {
        ttl_seconds / 60
    };
    let wait: String = format_i64(minutes);
    let head: String = joined3(
        "很抱歉，您的操作触发了我们的限制机制，为了保证系统的可用性，本命令每最多 ",
        shown.as_str(),
        " 分钟最多使用一次，请您耐心等待 ",
    );
    joined3(head.as_str(), wait.as_str(), " 分钟后再试，感谢您的理解和支持。")
}

// ---------------------------------------------------------------------------
// The command
// ---------------------------------------------------------------------------

/// What is known of a command for a recap so far.
pub struct RecapCommand {
    /// The command was given in a group or supergroup.
    pub in_group: bool,
    pub chat_id: i64,
    pub chat_title: String,
    /// Whether recaps are switched on.
    pub recap_enabled: Reply<bool>,
    pub options: Reply<Option<TelegramChatRecapsOptions>>,
    /// The pause between recaps that is configured for all chats.
    pub configured_seconds: i64,
    pub store_available: bool,
    pub rate: Reply<ManualRecapRateResult>,
    /// Whether the payloads of the keyboard were stored.
    pub keyboard: Reply<()>,
}

/// What is to be done for a command for a recap.
#[derive(Debug, PartialEq, Eq)]
pub enum RecapStep {
    ReadFlag,
    ReadOptions,
    /// The group has its recaps sent in private.
    HandlePrivately,
    /// Count this request against the pause of so many seconds.
    CheckRate { per_seconds: i64 },
    StoreKeyboard(KeyboardPlan),
    /// Ask for the hours, and end.
    AskHours(KeyboardPlan),
    /// Reply with this text, and end.
    Reply { text: String },
}

#[verifier::ext_equal]
pub enum RecapStepModel {
    ReadFlag,
    ReadOptions,
    HandlePrivately,
    CheckRate(i64),
    StoreKeyboard(KeyboardModel),
    AskHours(KeyboardModel),
    Reply(Seq<char>),
}

impl View for RecapStep {
    type V = RecapStepModel;

    open spec fn view(&self) -> RecapStepModel {
        match self {
            RecapStep::ReadFlag => RecapStepModel::ReadFlag,
            RecapStep::ReadOptions => RecapStepModel::ReadOptions,
            RecapStep::HandlePrivately => RecapStepModel::HandlePrivately,
            RecapStep::CheckRate { per_seconds } => RecapStepModel::CheckRate(*per_seconds),
            RecapStep::StoreKeyboard(plan) => RecapStepModel::StoreKeyboard(plan@),
            RecapStep::AskHours(plan) => RecapStepModel::AskHours(plan@),
            RecapStep::Reply { text } => RecapStepModel::Reply(text@),
        }
    }
}

/// The mode that options come to: an unknown one counts as public.
pub open spec fn command_mode(options: Option<TelegramChatRecapsOptions>) -> i64 {
    match options {
        Some(found) => match models::mode_of(found.auto_recap_send_mode) {
            Some(mode) => models::stored_mode(mode),
            None => 0,
        },
        None => 0,
    }
}

/// What is to be done once the options are known and recaps are public.
pub open spec fn public_step(
    command: RecapCommand,
    options: Option<TelegramChatRecapsOptions>,
) -> RecapStepModel {
    let per_seconds = recap_options::manual_rate(options, command.configured_seconds);
    let keyboard = keyboards::hour_keyboard(
        command.chat_id,
        command.chat_title@,
        command_mode(options),
    );
    if !command.store_available {
        RecapStepModel::Reply(RECAP_FAILED@)
    } else {
        match command.rate {
            Reply::Pending => RecapStepModel::CheckRate(per_seconds),
            Reply::Failed => RecapStepModel::Reply(limited(per_seconds, 0)),
            Reply::Got(rate) => if !rate.allowed {
                RecapStepModel::Reply(limited(per_seconds, rate.ttl_seconds))
            } else {
                match command.keyboard {
                    Reply::Pending => RecapStepModel::StoreKeyboard(keyboard),
                    Reply::Failed => RecapStepModel::Reply(RECAP_FAILED@),
                    Reply::Got(_) => RecapStepModel::AskHours(keyboard),
                }
            },
        }
    }
}

/// What is to be done for a command for a recap: the switch, the options, the pause, the
/// keyboard, in this order.
pub open spec fn command_step(command: RecapCommand) -> RecapStepModel {
    if !command.in_group {
        RecapStepModel::Reply(GROUPS_ONLY@)
    } else {
        match command.recap_enabled {
            Reply::Pending => RecapStepModel::ReadFlag,
            Reply::Failed => RecapStepModel::Reply(RECAP_FAILED@),
            Reply::Got(enabled) => if !enabled {
                RecapStepModel::Reply(NOT_ENABLED@)
            } else {
                match command.options {
                    Reply::Pending => RecapStepModel::ReadOptions,
                    Reply::Failed => RecapStepModel::Reply(RECAP_FAILED@),
                    Reply::Got(options) => if command_mode(options)
                        == AUTO_RECAP_SEND_MODE_ONLY_PRIVATE_SUBSCRIPTIONS {
                        RecapStepModel::HandlePrivately
                    } else {
                        public_step(command, options)
                    },
                }
            },
        }
    }
}

fn public_command_step(
    command: &RecapCommand,
    options: &Option<TelegramChatRecapsOptions>,
) -> (step: RecapStep)
    ensures
        step@ == public_step(*command, *options),
{
    let found: Option<&TelegramChatRecapsOptions> = match options {
        Some(options) => Some(options),
        None => None,
    };
    let per_seconds: i64 = recap_options::manual_rate_per_seconds(
        found,
        command.configured_seconds,
    );
    if !command.store_available {
        return RecapStep::Reply { text: RECAP_FAILED.to_owned() };
    }
    match &command.rate {
        Reply::Pending => RecapStep::CheckRate { per_seconds },
        Reply::Failed => RecapStep::Reply { text: rate_limit_message(per_seconds, 0) },
        Reply::Got(rate) => {
            if !rate.allowed {
                return RecapStep::Reply { text: rate_limit_message(per_seconds, rate.ttl_seconds) };
            }
            match &command.keyboard {
                Reply::Pending => RecapStep::StoreKeyboard(
                    build_select_hour_keyboard(
                        command.chat_id,
                        command.chat_title.as_str(),
                        mode_of_options(options),
                    ),
                ),
                Reply::Failed => RecapStep::Reply { text: RECAP_FAILED.to_owned() },
                Reply::Got(_) => RecapStep::AskHours(
                    build_select_hour_keyboard(
                        command.chat_id,
                        command.chat_title.as_str(),
                        mode_of_options(options),
                    ),
                ),
            }
        },
    }
}

fn mode_of_options(options: &Option<TelegramChatRecapsOptions>) -> (mode: i64)
    ensures
        mode == command_mode(*options),
{
    match options {
        Some(found) => match found.send_mode() {
            Some(mode) => mode.as_stored(),
            None => 0,
        },
        None => 0,
    }
}

/// What is to be done for a command for a recap.
pub fn handle_public_recap_command_step(command: &RecapCommand) -> (step: RecapStep)
    ensures
        step@ == command_step(*command),
{
    if !command.in_group {
        return RecapStep::Reply { text: GROUPS_ONLY.to_owned() };
    }
    match &command.recap_enabled {
        Reply::Pending => RecapStep::ReadFlag,
        Reply::Failed => RecapStep::Reply { text: RECAP_FAILED.to_owned() },
        Reply::Got(enabled) => {
            if !*enabled {
                return RecapStep::Reply { text: NOT_ENABLED.to_owned() };
            }
            match &command.options {
                Reply::Pending => RecapStep::ReadOptions,
                Reply::Failed => RecapStep::Reply { text: RECAP_FAILED.to_owned() },
                Reply::Got(options) => {
                    if mode_of_options(options)
                        == AUTO_RECAP_SEND_MODE_ONLY_PRIVATE_SUBSCRIPTIONS {
                        return RecapStep::HandlePrivately;
                    }
                    public_command_step(command, options)
                },
            }
        },
    }
}

/// The hours are asked for only in a group with recaps switched on, and only once the
/// pause allows it.
pub proof fn lemma_hours_need_permission(command: RecapCommand)
    requires
        command_step(command) is AskHours || command_step(command) is StoreKeyboard,
    ensures
        command.in_group,
        command.recap_enabled == Reply::Got(true),
        command.rate matches Reply::Got(rate) && rate.allowed,
{
}

// ---------------------------------------------------------------------------
// The recap
// ---------------------------------------------------------------------------

/// What is known of a recap on demand so far.
pub struct ManualRecap {
    /// Where the hours were asked for, and the message that the recap replies to.
    pub destination_chat_id: i64,
    pub reply_to_message_id: i32,
    /// Who chose the hours.
    pub actor: TelegramUser,
    pub waiting_edited: bool,
    /// The messages that were found; the chat is of the type that the last of them says.
    pub histories: Reply<Vec<TelegramChatHistory>>,
    /// The limits of the models can be worked with.
    pub generation_ready: bool,
    pub detailed: Reply<GroupDetailedRecap>,
    pub counts: Reply<ReactionCounts>,
    pub store_available: bool,
    /// Whether the payloads of the keyboard were stored.
    pub keyboard: Reply<()>,
    pub condensed: Option<CondensedOutcome>,
    /// Whether the recap was delivered.
    pub delivered: Reply<()>,
    pub waiting_deleted: bool,
}

/// What is to be done for a recap on demand.
#[derive(Debug, PartialEq, Eq)]
pub enum ManualStep {
    /// Show that the recap is being made; a failure does not matter.
    EditWaiting { text: String },
    /// Load the messages of so many hours.
    LoadHistories { hours: i64 },
    /// Make the detailed recap of a chat of this type.
    Summarize { chat_type: String },
    /// Count the reactions to the log with this identifier.
    CountReactions { log_id: String },
    StoreKeyboard(KeyboardPlan),
    /// Make the condensed recap; a failure does not matter.
    Condense,
    /// Deliver these messages, with this keyboard under them.
    Deliver { settings: DeliverySettings, parts: Vec<String>, keyboard: KeyboardPlan },
    /// Take the waiting message away; a failure does not matter.
    DeleteWaiting,
    /// Say this, and end.
    Fail { text: String },
    Done,
}

#[verifier::ext_equal]
pub enum ManualModel {
    EditWaiting(Seq<char>),
    LoadHistories(i64),
    Summarize(Seq<char>),
    CountReactions(Seq<char>),
    StoreKeyboard(KeyboardModel),
    Condense,
    Deliver(DeliverySettings, Seq<Seq<char>>, KeyboardModel),
    DeleteWaiting,
    Fail(Seq<char>),
    Done,
}

impl View for ManualStep {
    type V = ManualModel;

    open spec fn view(&self) -> ManualModel {
        match self {
            ManualStep::EditWaiting { text } => ManualModel::EditWaiting(text@),
            ManualStep::LoadHistories { hours } => ManualModel::LoadHistories(*hours),
            ManualStep::Summarize { chat_type } => ManualModel::Summarize(chat_type@),
            ManualStep::CountReactions { log_id } => ManualModel::CountReactions(log_id@),
            ManualStep::StoreKeyboard(plan) => ManualModel::StoreKeyboard(plan@),
            ManualStep::Condense => ManualModel::Condense,
            ManualStep::Deliver { settings, parts, keyboard } => ManualModel::Deliver(
                *settings,
                text::texts(parts@),
                keyboard@,
            ),
            ManualStep::DeleteWaiting => ManualModel::DeleteWaiting,
            ManualStep::Fail { text } => ManualModel::Fail(text@),
            ManualStep::Done => ManualModel::Done,
        }
    }
}

/// The summaries from `i` on that hold something.
pub open spec fn filled(summaries: Seq<String>, i: int) -> Seq<Seq<char>>
    decreases summaries.len() - i,
{
    if i < 0 || i >= summaries.len() {
        Seq::empty()
    } else if summaries[i]@.len() == 0 {
        filled(summaries, i + 1)
    } else {
        seq![summaries[i]@] + filled(summaries, i + 1)
    }
}

/// The summaries that hold something, in order.
pub fn filled_summaries(summaries: &Vec<String>) -> (out: Vec<String>)
    ensures
        text::texts(out@) == filled(summaries@, 0),
{
    let mut out: Vec<String> = Vec::new();
    let mut i: usize = 0;
    assert(text::texts(out@) + filled(summaries@, 0) =~= filled(summaries@, 0));
    while i < summaries.len()
        invariant
            i <= summaries.len(),
            text::texts(out@) + filled(summaries@, i as int) == filled(summaries@, 0),
        decreases summaries.len() - i,
    {
        let ghost before = text::texts(out@);
        if !summaries[i].as_str().is_empty() {
            out.push(summaries[i].clone());
            assert(text::texts(out@) =~= before.push(summaries@[i as int]@));
        }
        i = i + 1;
        assert(text::texts(out@) + filled(summaries@, i as int) =~= before + filled(
            summaries@,
            i - 1,
        ));
    }
    assert(text::texts(out@) =~= filled(summaries@, 0));
    out
}

/// The number of an account, zero where it is out of range.
pub open spec fn number_or_zero(user: TelegramUser) -> i64 {
    match users::user_number(user) {
        Some(number) => number,
        None => 0,
    }
}

/// The messages of a recap on demand.
pub open spec fn manual_messages(
    data: SelectHourCallbackData,
    recap: ManualRecap,
    chat_type: Seq<char>,
    detailed: GroupDetailedRecap,
    outcome: CondensedOutcome,
) -> Seq<Seq<char>> {
    let summaries = filled(detailed.summaries@, 0);
    autorecap::messages_of(
        SummaryInputs {
            title: group_name(data.chat_title@),
            hours: data.hour,
            automatic: false,
            initiator_name: users::shown_name(recap.actor),
            initiator_user_id: number_or_zero(recap.actor),
            condensed_summary: autorecap::shown_condensed(
                outcome,
                summaries,
                autorecap::default_condensed(data.hour as int),
            ),
            general_group_notice: chat_type == "group"@,
            subscription_chat_title: ""@,
            condensed_trace: Some(autorecap::condensed_trace_of(outcome)),
            recap_trace: Some(detailed.trace@),
        },
        summaries,
    )
}

/// How a recap on demand is delivered.
pub open spec fn manual_settings(recap: ManualRecap) -> DeliverySettings {
    DeliverySettings {
        chat_id: recap.destination_chat_id,
        reply_to_message_id: recap.reply_to_message_id,
        disable_notification: false,
        allow_sending_without_reply: true,
    }
}

/// What is to be done once the detailed recap is there, where the identifier of its log
/// reads as `canonical`.
pub open spec fn after_detailed(
    data: SelectHourCallbackData,
    recap: ManualRecap,
    chat_type: Seq<char>,
    detailed: GroupDetailedRecap,
    canonical: Option<Seq<char>>,
) -> ManualModel {
    if filled(detailed.summaries@, 0).len() == 0 || canonical is None {
        ManualModel::Fail(GENERATION_FAILED@)
    } else {
        match recap.counts {
            Reply::Pending => ManualModel::CountReactions(canonical->0),
            Reply::Failed => ManualModel::Fail(GENERATION_FAILED@),
            Reply::Got(counts) => {
                let keyboard = keyboards::vote_keyboard(data.chat_id, detailed.log_id@, counts);
                if !recap.store_available {
                    ManualModel::Fail(GENERATION_FAILED@)
                } else {
                    match recap.keyboard {
                        Reply::Pending => ManualModel::StoreKeyboard(keyboard),
                        Reply::Failed => ManualModel::Fail(GENERATION_FAILED@),
                        Reply::Got(_) => match recap.condensed {
                            None => ManualModel::Condense,
                            Some(outcome) => {
                                let parts = manual_messages(
                                    data,
                                    recap,
                                    chat_type,
                                    detailed,
                                    outcome,
                                );
                                if parts.len() == 0 {
                                    ManualModel::Fail(GENERATION_FAILED@)
                                } else if recap.delivered is Pending {
                                    ManualModel::Deliver(manual_settings(recap), parts, keyboard)
                                } else if !recap.waiting_deleted {
                                    ManualModel::DeleteWaiting
                                } else if recap.delivered is Failed {
                                    ManualModel::Fail(DELIVERY_FAILED@)
                                } else {
                                    ManualModel::Done
                                }
                            },
                        },
                    }
                }
            },
        }
    }
}

/// What is to be done for a recap on demand.
pub open spec fn manual_step(
    data: SelectHourCallbackData,
    recap: ManualRecap,
    canonical: Option<Seq<char>>,
) -> ManualModel {
    if !recap.waiting_edited {
        ManualModel::EditWaiting(in_progress(data))
    } else {
        match recap.histories {
            Reply::Pending => ManualModel::LoadHistories(data.hour),
            Reply::Failed => ManualModel::Fail(GENERATION_FAILED@),
            Reply::Got(histories) => if histories@.len() <= 5 {
                ManualModel::Fail(too_few(data.hour as int, data.recap_mode))
            } else if !recap.generation_ready {
                ManualModel::Fail(GENERATION_FAILED@)
            } else {
                match recap.detailed {
                    Reply::Pending => ManualModel::Summarize(histories@.last().chat_type@),
                    Reply::Failed => ManualModel::Fail(GENERATION_FAILED@),
                    Reply::Got(detailed) => after_detailed(
                        data,
                        recap,
                        histories@.last().chat_type@,
                        detailed,
                        canonical,
                    ),
                }
            },
        }
    }
}

fn generation_failed() -> (step: ManualStep)
    ensures
        step@ == ManualModel::Fail(GENERATION_FAILED@),
{
    ManualStep::Fail { text: GENERATION_FAILED.to_owned() }
}

fn compose_manual(
    data: &SelectHourCallbackData,
    recap: &ManualRecap,
    chat_type: &str,
    detailed: &GroupDetailedRecap,
    outcome: &CondensedOutcome,
) -> (messages: Vec<String>)
    ensures
        text::texts(messages@) == manual_messages(*data, *recap, chat_type@, *detailed, *outcome),
{
    let summaries: Vec<String> = filled_summaries(&detailed.summaries);
    let default: String = autorecap::default_condensed_summary(data.hour);
    let (shown, trace) = autorecap::settle_condensed(outcome, &summaries, default.as_str());
    let title: String = group_display_name(data.chat_title.as_str());
    let name: String = users::user_display_name(&recap.actor);
    let initiator_user_id: i64 = match users::telegram_user_id(&recap.actor) {
        Some(number) => number,
        None => 0,
    };
    let config = RichRecapSummaryConfig {
        title: title.as_str(),
        hours: data.hour,
        automatic: false,
        initiator_name: name.as_str(),
        initiator_user_id,
        condensed_summary: shown.as_str(),
        general_group_notice: text::same(chat_type, "group"),
        subscription_chat_title: "",
        condensed_trace: Some(trace),
        recap_trace: Some(&detailed.trace),
    };
    autorecap::recap_messages(&config, &summaries)
}

fn detailed_step(
    data: &SelectHourCallbackData,
    recap: &ManualRecap,
    chat_type: &str,
    detailed: &GroupDetailedRecap,
    canonical: Option<String>,
) -> (step: ManualStep)
    ensures
        step@ == after_detailed(*data, *recap, chat_type@, *detailed, text::viewed(canonical)),
{
    let kept: Vec<String> = filled_summaries(&detailed.summaries);
    assert(text::texts(kept@).len() == kept@.len());
    if kept.len() == 0 {
        return generation_failed();
    }
    let log_id: String = match canonical {
        Some(log_id) => log_id,
        None => {
            return generation_failed();
        },
    };
    let counts: ReactionCounts = match &recap.counts {
        Reply::Pending => {
            return ManualStep::CountReactions { log_id };
        },
        Reply::Failed => {
            return generation_failed();
        },
        Reply::Got(counts) => *counts,
    };
    if !recap.store_available {
        return generation_failed();
    }
    match &recap.keyboard {
        Reply::Pending => ManualStep::StoreKeyboard(
            build_vote_keyboard(data.chat_id, detailed.log_id.as_str(), counts),
        ),
        Reply::Failed => generation_failed(),
        Reply::Got(_) => match &recap.condensed {
            None => ManualStep::Condense,
            Some(outcome) => {
                let parts: Vec<String> = compose_manual(data, recap, chat_type, detailed, outcome);
                assert(text::texts(parts@).len() == parts@.len());
                if parts.len() == 0 {
                    return generation_failed();
                }
                match &recap.delivered {
                    Reply::Pending => ManualStep::Deliver {
                        settings: DeliverySettings {
                            chat_id: recap.destination_chat_id,
                            reply_to_message_id: recap.reply_to_message_id,
                            disable_notification: false,
                            allow_sending_without_reply: true,
                        },
                        parts,
                        keyboard: build_vote_keyboard(
                            data.chat_id,
                            detailed.log_id.as_str(),
                            counts,
                        ),
                    },
                    Reply::Failed => if !recap.waiting_deleted {
                        ManualStep::DeleteWaiting
                    } else {
                        ManualStep::Fail { text: DELIVERY_FAILED.to_owned() }
                    },
                    Reply::Got(_) => if !recap.waiting_deleted {
                        ManualStep::DeleteWaiting
                    } else {
                        ManualStep::Done
                    },
                }
            },
        },
    }
}

/// What is to be done for a recap on demand, where the identifier of its log reads as
/// `canonical`: the messages, the detailed recap, its reactions and keyboard, the
/// condensed recap, the delivery. The waiting message goes whether or not the delivery
/// succeeded.
pub fn select_hour_step_with(
    data: &SelectHourCallbackData,
    recap: &ManualRecap,
    canonical: Option<String>,
) -> (step: ManualStep)
    ensures
        step@ == manual_step(*data, *recap, text::viewed(canonical)),
{
    if !recap.waiting_edited {
        return ManualStep::EditWaiting { text: in_progress_text(data) };
    }
    match &recap.histories {
        Reply::Pending => ManualStep::LoadHistories { hours: data.hour },
        Reply::Failed => generation_failed(),
        Reply::Got(histories) => {
            if !autorecap::has_enough_auto_recap_histories(histories.len()) {
                return ManualStep::Fail {
                    text: insufficient_histories_message(data.hour, data.recap_mode),
                };
            }
            if !recap.generation_ready {
                return generation_failed();
            }
            let chat_type: &str = histories[histories.len() - 1].chat_type.as_str();
            match &recap.detailed {
                Reply::Pending => ManualStep::Summarize { chat_type: chat_type.to_owned() },
                Reply::Failed => generation_failed(),
                Reply::Got(detailed) => detailed_step(
                    data,
                    recap,
                    chat_type,
                    detailed,
                    canonical,
                ),
            }
        },
    }
}

/// What is to be done for a recap on demand.
pub fn execute_select_hour_step(data: &SelectHourCallbackData, recap: &ManualRecap) -> (step:
    ManualStep)
    ensures
        step@ == manual_step(*data, *recap, autorecap::log_of(recap.detailed)),
{
    select_hour_step_with(data, recap, autorecap::log_identifier(&recap.detailed))
}

/// A recap that is done was delivered, made of more than five messages, and has taken the
/// waiting message away.
pub proof fn lemma_done_means_delivered(
    data: SelectHourCallbackData,
    recap: ManualRecap,
    canonical: Option<Seq<char>>,
)
    requires
        manual_step(data, recap, canonical) is Done,
    ensures
        recap.delivered is Got,
        recap.waiting_deleted,
        recap.histories matches Reply::Got(found) && found@.len() > 5,
{
}

// ---------------------------------------------------------------------------
// Reactions
// ---------------------------------------------------------------------------

/// A reaction that can be applied.
#[derive(Debug, PartialEq, Eq)]
pub struct AppliedReaction {
    pub log_id: String,
    pub user_id: i64,
    pub reaction: ReactionType,
}

/// The reaction that a button asks for, where its identifier reads as `canonical`: none
/// where there is no identifier, no known reaction or no number of the user.
pub open spec fn reaction_asked(
    canonical: Option<Seq<char>>,
    reaction_type: Seq<char>,
    user: TelegramUser,
) -> Option<(Seq<char>, i64, ReactionType)> {
    match (canonical, models::reaction_of(reaction_type), users::user_number(user)) {
        (Some(log_id), Some(reaction), Some(user_id)) => if reaction == ReactionType::NoReaction {
            None
        } else {
            Some((log_id, user_id, reaction))
        },
        _ => None,
    }
}

/// The reaction that a button asks for, where its identifier reads as `canonical`.
pub fn reaction_with(canonical: Option<String>, reaction_type: &str, user: &TelegramUser) -> (r:
    Option<AppliedReaction>)
    ensures
        match r {
            Some(found) => reaction_asked(text::viewed(canonical), reaction_type@, *user) == Some(
                (found.log_id@, found.user_id, found.reaction),
            ),
            None => reaction_asked(text::viewed(canonical), reaction_type@, *user) is None,
        },
{
    let log_id: String = match canonical {
        Some(log_id) => log_id,
        None => {
            return None;
        },
    };
    let reaction: ReactionType = match ReactionType::from_stored(reaction_type) {
        Some(reaction) => reaction,
        None => {
            return None;
        },
    };
    if reaction == ReactionType::NoReaction {
        return None;
    }
    match users::telegram_user_id(user) {
        Some(user_id) => Some(AppliedReaction { log_id, user_id, reaction }),
        None => None,
    }
}

/// The reaction that a button asks for.
pub fn reaction_for(log_id: &str, reaction_type: &str, user: &TelegramUser) -> (r: Option<
    AppliedReaction,
>)
    ensures
        match r {
            Some(found) => reaction_asked(identifier::canonical_uuid(log_id@), reaction_type@, *user) == Some(
                (found.log_id@, found.user_id, found.reaction),
            ),
            None => reaction_asked(identifier::canonical_uuid(log_id@), reaction_type@, *user) is None,
        },
{
    let canonical: Option<String> = identifier::parse_uuid(log_id);
    reaction_with(canonical, reaction_type, user)
}

/// What is known of a reaction so far.
pub struct ReactionState {
    pub applied: Reply<()>,
    pub counts: Reply<ReactionCounts>,
    pub store_available: bool,
    pub keyboard: Reply<()>,
}

/// What is to be done for a reaction.
#[derive(Debug, PartialEq, Eq)]
pub enum ReactionStep {
    React,
    Count,
    StoreKeyboard(KeyboardPlan),
    /// Show the new counts, and end.
    EditKeyboard(KeyboardPlan),
    Done,
}

#[verifier::ext_equal]
pub enum ReactionStepModel {
    React,
    Count,
    StoreKeyboard(KeyboardModel),
    EditKeyboard(KeyboardModel),
    Done,
}

impl View for ReactionStep {
    type V = ReactionStepModel;

    open spec fn view(&self) -> ReactionStepModel {
        match self {
            ReactionStep::React => ReactionStepModel::React,
            ReactionStep::Count => ReactionStepModel::Count,
            ReactionStep::StoreKeyboard(plan) => ReactionStepModel::StoreKeyboard(plan@),
            ReactionStep::EditKeyboard(plan) => ReactionStepModel::EditKeyboard(plan@),
            ReactionStep::Done => ReactionStepModel::Done,
        }
    }
}

/// What is to be done for a reaction: it is applied, the reactions are counted, and the
/// keyboard shows the counts. A failure ends it in silence.
pub open spec fn feedback_step(
    chat_id: i64,
    log_id: Seq<char>,
    state: ReactionState,
) -> ReactionStepModel {
    match state.applied {
        Reply::Pending => ReactionStepModel::React,
        Reply::Failed => ReactionStepModel::Done,
        Reply::Got(_) => match state.counts {
            Reply::Pending => ReactionStepModel::Count,
            Reply::Failed => ReactionStepModel::Done,
            Reply::Got(counts) => {
                let keyboard = keyboards::vote_keyboard(chat_id, log_id, counts);
                if !state.store_available {
                    ReactionStepModel::Done
                } else {
                    match state.keyboard {
                        Reply::Pending => ReactionStepModel::StoreKeyboard(keyboard),
                        Reply::Failed => ReactionStepModel::Done,
                        Reply::Got(_) => ReactionStepModel::EditKeyboard(keyboard),
                    }
                }
            },
        },
    }
}

/// What is to be done for a reaction.
pub fn handle_feedback_reaction_step(chat_id: i64, log_id: &str, state: &ReactionState) -> (step:
    ReactionStep)
    ensures
        step@ == feedback_step(chat_id, log_id@, *state),
{
    match &state.applied {
        Reply::Pending => ReactionStep::React,
        Reply::Failed => ReactionStep::Done,
        Reply::Got(_) => match &state.counts {
            Reply::Pending => ReactionStep::Count,
            Reply::Failed => ReactionStep::Done,
            Reply::Got(counts) => {
                if !state.store_available {
                    return ReactionStep::Done;
                }
                match &state.keyboard {
                    Reply::Pending => ReactionStep::StoreKeyboard(
                        build_vote_keyboard(chat_id, log_id, *counts),
                    ),
                    Reply::Failed => ReactionStep::Done,
                    Reply::Got(_) => ReactionStep::EditKeyboard(
                        build_vote_keyboard(chat_id, log_id, *counts),
                    ),
                }
            },
        },
    }
}

} // verus!
