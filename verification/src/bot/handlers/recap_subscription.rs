//! Recaps in private: asking for one in a group that has them sent in private,
//! subscribing, unsubscribing, and the links that lead back to what was begun.

use vstd::prelude::*;

use crate::bot::handlers::recap_manual::{
    self, escape_html, AUTO_RECAP_SEND_MODE_ONLY_PRIVATE_SUBSCRIPTIONS, RECAP_FAILED,
};
use crate::bot::keyboards::{self, build_select_hour_keyboard, KeyboardModel, KeyboardPlan};
use crate::bot::payloads::{self, encode_start_context, PrivateSubscriptionStartContext};
use crate::bot::users::{self, TelegramUser};
use crate::numeral;
use crate::redis::keys::{self, StartContextDomain};
use crate::reply::Reply;
use crate::services::telegram_rich_message::{self, SendErrorModel, TelegramRichMessageError};
use crate::text::{self, joined3, same};

verus! {

pub const ANONYMOUS_RECAP: &'static str =
    "匿名管理员无法在设定为私聊回顾模式的群组内请求创建聊天记录回顾哦！如果需要创建聊天记录回顾，必须先将发送角色切换为普通用户然后再试哦。";

pub const ANONYMOUS_SUBSCRIBE: &'static str =
    "匿名管理员无法订阅定时的聊天记录回顾哦！如果需要订阅定时的聊天记录回顾，必须先将发送角色切换为普通用户然后再试哦。";

pub const SUBSCRIBE_GROUPS_ONLY: &'static str = "只有在群组和超级群组内才可以订阅定时的聊天记录回顾哦！";

pub const SUBSCRIBE_NOT_ENABLED: &'static str =
    "聊天记录回顾功能在当前群组尚未启用，需要在群组管理员通过 /configure_recap 命令配置功能启用后才可以订阅聊天回顾哦。";

pub const UNSUBSCRIBE_GROUPS_ONLY: &'static str =
    "只有在群组和超级群组内才可以取消订阅定时的聊天记录回顾哦！";

pub const SUBSCRIPTION_ERROR: &'static str = "订阅群组定时聊天回顾时出现问题，请稍后再试！";

pub const UNSUBSCRIBE_ERROR: &'static str = "取消订阅时出现了问题，请稍后再试！";

// ---------------------------------------------------------------------------
// Texts
// ---------------------------------------------------------------------------

/// What asks for the hours in private.
pub open spec fn selector_text(chat_title: Seq<char>) -> Seq<char> {
    "您正在请求为群组 <b>"@ + recap_manual::attribute_escaped(chat_title)
        + "</b> 创建聊天回顾。\n请问您要为过去几个小时内的聊天创建回顾呢？"@
}

pub fn private_recap_selector_text(chat_title: &str) -> (out: String)
    ensures
        out@ == selector_text(chat_title@),
{
    let title: String = escape_html(chat_title);
    joined3(
        "您正在请求为群组 <b>",
        title.as_str(),
        "</b> 创建聊天回顾。\n请问您要为过去几个小时内的聊天创建回顾呢？",
    )
}

pub open spec fn subscribed(chat_title: Seq<char>) -> Seq<char> {
    "您已成功订阅群组 <b>"@ + recap_manual::attribute_escaped(chat_title)
        + "</b> 的定时聊天回顾！"@
}

pub fn subscribed_message(chat_title: &str) -> (out: String)
    ensures
        out@ == subscribed(chat_title@),
{
    let title: String = escape_html(chat_title);
    joined3("您已成功订阅群组 <b>", title.as_str(), "</b> 的定时聊天回顾！")
}

pub open spec fn unsubscribed(chat_title: Seq<char>) -> Seq<char> {
    "您已成功取消订阅群组 <b>"@ + recap_manual::attribute_escaped(chat_title)
        + "</b> 的定时聊天回顾！"@
}

pub fn unsubscribed_message(chat_title: &str) -> (out: String)
    ensures
        out@ == unsubscribed(chat_title@),
{
    let title: String = escape_html(chat_title);
    joined3("您已成功取消订阅群组 <b>", title.as_str(), "</b> 的定时聊天回顾！")
}

pub open spec fn left_by_button(chat_title: Seq<char>) -> Seq<char> {
    "已成功取消订阅群组 <b>"@ + recap_manual::attribute_escaped(chat_title)
        + "</b> 的定时聊天回顾。"@
}

pub fn left_by_button_message(chat_title: &str) -> (out: String)
    ensures
        out@ == left_by_button(chat_title@),
{
    let title: String = escape_html(chat_title);
    joined3("已成功取消订阅群组 <b>", title.as_str(), "</b> 的定时聊天回顾。")
}

/// What is said to someone who asks for a recap and has never talked to the bot.
pub open spec fn private_never_started(username: Seq<char>, token: Seq<char>) -> Seq<char> {
    "抱歉，在给您发送引导您创建聊天回顾的消息时出现了问题，这似乎是因为您<b>从未</b>和本 Bot（@"@ + username
        + "） <b>发起过对话</b>导致的。\n\n由于当前群组的聊天回顾功能已经被<b>群组创建者</b>设定为<b>私聊订阅模式</b>，Bot 需要通过私聊的方式向您发送引导您创建聊天回顾的消息，届时，您需要完成以下任一一个操作后方可继续创建聊天回顾：\n1. <b>点击链接</b> https://t.me/"@
        + username
        + "?start="@ + token
        + " 与 Bot 开始对话就能继续原先的 /recap 命令操作；\n2. 点击 Bot 头像并且开始对话，然后在群组内重新发送 /recap 命令来创建聊天回顾。"@
}

pub fn private_never_started_guidance(username: &str, token: &str) -> (out: String)
    ensures
        out@ == private_never_started(username@, token@),
{
    let mut out: String = "抱歉，在给您发送引导您创建聊天回顾的消息时出现了问题，这似乎是因为您<b>从未</b>和本 Bot（@".to_owned();
    out.append(username);
    out.append("） <b>发起过对话</b>导致的。\n\n由于当前群组的聊天回顾功能已经被<b>群组创建者</b>设定为<b>私聊订阅模式</b>，Bot 需要通过私聊的方式向您发送引导您创建聊天回顾的消息，届时，您需要完成以下任一一个操作后方可继续创建聊天回顾：\n1. <b>点击链接</b> https://t.me/");
    out.append(username);
    out.append("?start=");
    out.append(token);
    out.append(" 与 Bot 开始对话就能继续原先的 /recap 命令操作；\n2. 点击 Bot 头像并且开始对话，然后在群组内重新发送 /recap 命令来创建聊天回顾。");
    out
}

/// What is said to someone who asks for a recap and has blocked the bot.
pub open spec fn private_blocked(username: Seq<char>, token: Seq<char>) -> Seq<char> {
    "抱歉，在给您发送引导您创建聊天回顾的消息时出现了问题，这似乎是因为您已将本 Bot（@"@ + username
        + "）<b>停用</b>或是添加到了<b>黑名单</b>中导致的。\n\n由于当前群组的聊天回顾功能已经被<b>群组创建者</b>设定为<b>私聊订阅模式</b>，Bot 需要通过私聊的方式向您发送引导您创建聊天回顾的消息，届时，您需要根据下面的提示进行操作：\n1. 将 Bot 从<b>黑名单中移除</b>；\n2. <b>点击链接</b> https://t.me/"@
        + username
        + "?start="@ + token
        + " 继续创建聊天回顾，或是在群组内重新发送 /recap 命令来创建聊天回顾。"@
}

pub fn private_blocked_guidance(username: &str, token: &str) -> (out: String)
    ensures
        out@ == private_blocked(username@, token@),
{
    let mut out: String = "抱歉，在给您发送引导您创建聊天回顾的消息时出现了问题，这似乎是因为您已将本 Bot（@".to_owned();
    out.append(username);
    out.append("）<b>停用</b>或是添加到了<b>黑名单</b>中导致的。\n\n由于当前群组的聊天回顾功能已经被<b>群组创建者</b>设定为<b>私聊订阅模式</b>，Bot 需要通过私聊的方式向您发送引导您创建聊天回顾的消息，届时，您需要根据下面的提示进行操作：\n1. 将 Bot 从<b>黑名单中移除</b>；\n2. <b>点击链接</b> https://t.me/");
    out.append(username);
    out.append("?start=");
    out.append(token);
    out.append(" 继续创建聊天回顾，或是在群组内重新发送 /recap 命令来创建聊天回顾。");
    out
}

/// What is said to someone who subscribes and has never talked to the bot.
pub open spec fn subscription_never_started(username: Seq<char>, token: Seq<char>) -> Seq<char> {
    "抱歉，在为您订阅本群组定时聊天回顾时出现了问题，这似乎是因为您<b>从未</b>和本 Bot（@"@ + username
        + "） <b>发起过对话</b>导致的。\n\n订阅群组的聊天回顾需要 Bot 需要有权限通过私聊的方式向您定期发送聊天回顾，届时，您需要完成以下任一一个操作后方可完成订阅：\n1. <b>点击链接</b> https://t.me/"@
        + username
        + "?start="@ + token
        + " 与 Bot 开始对话；\n2. 点击 Bot 头像并且开始对话，然后在群组内重新发送 /subscribe_recap 命令来订阅本群组的定时聊天回顾。"@
}

pub fn subscription_never_started_guidance(username: &str, token: &str) -> (out: String)
    ensures
        out@ == subscription_never_started(username@, token@),
{
    let mut out: String = "抱歉，在为您订阅本群组定时聊天回顾时出现了问题，这似乎是因为您<b>从未</b>和本 Bot（@".to_owned();
    out.append(username);
    out.append("） <b>发起过对话</b>导致的。\n\n订阅群组的聊天回顾需要 Bot 需要有权限通过私聊的方式向您定期发送聊天回顾，届时，您需要完成以下任一一个操作后方可完成订阅：\n1. <b>点击链接</b> https://t.me/");
    out.append(username);
    out.append("?start=");
    out.append(token);
    out.append(" 与 Bot 开始对话；\n2. 点击 Bot 头像并且开始对话，然后在群组内重新发送 /subscribe_recap 命令来订阅本群组的定时聊天回顾。");
    out
}

/// What is said to someone who subscribes and has blocked the bot.
pub open spec fn subscription_blocked(username: Seq<char>, token: Seq<char>) -> Seq<char> {
    "抱歉，在为您订阅本群组定时聊天回顾时出现了问题，这似乎是因为您已将本 Bot（@"@ + username
        + "）<b>停用</b>或是添加到了<b>黑名单</b>中导致的。\n\n订阅群组的聊天回顾需要 Bot 需要有权限通过私聊的方式向您定期发送聊天回顾，届时，您需要根据下面的提示进行操作：\n1. 将 Bot 从<b>黑名单中移除</b>；\n2. <b>点击链接</b> https://t.me/"@
        + username
        + "?start="@ + token
        + " 继续订阅本群组的定时聊天回顾操作，或是在群组内重新发送 /subscribe_recap 命令来订阅本群组的定时聊天回顾。"@
}

pub fn subscription_blocked_guidance(username: &str, token: &str) -> (out: String)
    ensures
        out@ == subscription_blocked(username@, token@),
{
    let mut out: String = "抱歉，在为您订阅本群组定时聊天回顾时出现了问题，这似乎是因为您已将本 Bot（@".to_owned();
    out.append(username);
    out.append("）<b>停用</b>或是添加到了<b>黑名单</b>中导致的。\n\n订阅群组的聊天回顾需要 Bot 需要有权限通过私聊的方式向您定期发送聊天回顾，届时，您需要根据下面的提示进行操作：\n1. 将 Bot 从<b>黑名单中移除</b>；\n2. <b>点击链接</b> https://t.me/");
    out.append(username);
    out.append("?start=");
    out.append(token);
    out.append(" 继续订阅本群组的定时聊天回顾操作，或是在群组内重新发送 /subscribe_recap 命令来订阅本群组的定时聊天回顾。");
    out
}

// ---------------------------------------------------------------------------
// Refusals
// ---------------------------------------------------------------------------

/// A refusal of Telegram with this description.
pub open spec fn forbidden(error: SendErrorModel, said: Seq<char>) -> bool {
    match error {
        SendErrorModel::Api { code, description, .. } => code == 403 && description == said,
        _ => false,
    }
}

fn is_forbidden(error: &TelegramRichMessageError, said: &str) -> (r: bool)
    ensures
        r == forbidden(error@, said@),
{
    match error {
        TelegramRichMessageError::Api { code, description, .. } => *code == 403 && same(
            description.as_str(),
            said,
        ),
        _ => false,
    }
}

pub open spec fn never_started(error: SendErrorModel) -> bool {
    forbidden(error, "Forbidden: bot can't initiate conversation with a user"@)
}

pub open spec fn blocked(error: SendErrorModel) -> bool {
    forbidden(error, "Forbidden: bot was blocked by the user"@)
}

/// Whether the user has never talked to the bot.
pub fn is_cannot_initiate(error: &TelegramRichMessageError) -> (r: bool)
    ensures
        r == never_started(error@),
{
    is_forbidden(error, "Forbidden: bot can't initiate conversation with a user")
}

/// Whether the user has blocked the bot.
pub fn is_blocked(error: &TelegramRichMessageError) -> (r: bool)
    ensures
        r == blocked(error@),
{
    is_forbidden(error, "Forbidden: bot was blocked by the user")
}

// ---------------------------------------------------------------------------
// Steps
// ---------------------------------------------------------------------------

/// What has become of a message to a user.
#[derive(Debug, PartialEq, Eq)]
pub enum DirectMessage {
    Pending,
    Sent,
    Refused(TelegramRichMessageError),
}

/// What is to be done for a command.
#[derive(Debug, PartialEq, Eq)]
pub enum FlowStep {
    /// Nothing more.
    Done,
    /// Read whether recaps are switched on.
    ReadFlag,
    StoreKeyboard(KeyboardPlan),
    /// Send a message in HTML to a user, with a keyboard where there is one.
    SendDirect { user_id: i64, text: String, keyboard: Option<KeyboardPlan> },
    /// Store the subscription.
    Subscribe { user_id: i64 },
    /// Remove a subscription.
    Unsubscribe { user_id: i64 },
    /// Store what a link leads back to.
    StoreStartContext { domain: StartContextDomain, token: String, payload: String },
    /// Take the command away, and go on; a failure does not matter.
    DeleteCommand,
    /// Take the command and what was to be deleted later away, and end.
    CleanUp { user_id: i64 },
    /// Reply, and end.
    Reply { text: String },
    /// Reply, remember the reply (and the command) for later deletion, and end.
    ReplyAndTrack { user_id: i64, text: String, include_command: bool, html: bool },
}

#[verifier::ext_equal]
pub enum FlowModel {
    Done,
    ReadFlag,
    StoreKeyboard(KeyboardModel),
    SendDirect(i64, Seq<char>, Option<KeyboardModel>),
    Subscribe(i64),
    Unsubscribe(i64),
    StoreStartContext(StartContextDomain, Seq<char>, Seq<char>),
    DeleteCommand,
    CleanUp(i64),
    Reply(Seq<char>),
    ReplyAndTrack(i64, Seq<char>, bool, bool),
}

impl View for FlowStep {
    type V = FlowModel;

    open spec fn view(&self) -> FlowModel {
        match self {
            FlowStep::Done => FlowModel::Done,
            FlowStep::ReadFlag => FlowModel::ReadFlag,
            FlowStep::StoreKeyboard(plan) => FlowModel::StoreKeyboard(plan@),
            FlowStep::SendDirect { user_id, text, keyboard } => FlowModel::SendDirect(
                *user_id,
                text@,
                match keyboard {
                    Some(plan) => Some(plan@),
                    None => None,
                },
            ),
            FlowStep::Subscribe { user_id } => FlowModel::Subscribe(*user_id),
            FlowStep::Unsubscribe { user_id } => FlowModel::Unsubscribe(*user_id),
            FlowStep::StoreStartContext { domain, token, payload } => FlowModel::StoreStartContext(
                *domain,
                token@,
                payload@,
            ),
            FlowStep::DeleteCommand => FlowModel::DeleteCommand,
            FlowStep::CleanUp { user_id } => FlowModel::CleanUp(*user_id),
            FlowStep::Reply { text } => FlowModel::Reply(text@),
            FlowStep::ReplyAndTrack { user_id, text, include_command, html } =>
                FlowModel::ReplyAndTrack(*user_id, text@, *include_command, *html),
        }
    }
}

/// What a link back to a chat carries.
pub open spec fn context_payload(chat_id: i64, chat_title: Seq<char>) -> Seq<char> {
    payloads::html_safe(
        "{\"chat_id\":"@ + numeral::decimal(chat_id as int) + ",\"chat_title\":"@
            + telegram_rich_message::json_string(chat_title) + "}"@,
    )
}

fn reply(said: &str) -> (step: FlowStep)
    ensures
        step@ == FlowModel::Reply(said@),
{
    FlowStep::Reply { text: said.to_owned() }
}

fn noted(user_id: i64, said: &str) -> (step: FlowStep)
    ensures
        step@ == FlowModel::ReplyAndTrack(user_id, said@, false, false),
{
    FlowStep::ReplyAndTrack { user_id, text: said.to_owned(), include_command: false, html: false }
}

fn store_context(domain: StartContextDomain, chat_id: i64, chat_title: &str) -> (step: FlowStep)
    ensures
        step@ == FlowModel::StoreStartContext(
            domain,
            keys::start_token(domain, chat_id as int),
            context_payload(chat_id, chat_title@),
        ),
{
    FlowStep::StoreStartContext {
        domain,
        token: domain.token(chat_id),
        payload: encode_start_context(chat_id, chat_title),
    }
}

// ---------------------------------------------------------------------------
// A recap in private
// ---------------------------------------------------------------------------

/// What is known of a command for a recap in private so far.
pub struct PrivateRecap {
    pub from: Option<TelegramUser>,
    pub chat_id: i64,
    pub chat_title: String,
    pub bot_username: String,
    pub store_available: bool,
    pub keyboard: Reply<()>,
    pub direct: DirectMessage,
    pub context: Reply<()>,
}

/// What is to be done once the message to the user was refused.
pub open spec fn private_refused(
    recap: PrivateRecap,
    user_id: i64,
    error: SendErrorModel,
) -> FlowModel {
    let domain = StartContextDomain::PrivateSubscription;
    let token = keys::start_token(domain, recap.chat_id as int);
    match recap.context {
        Reply::Pending => FlowModel::StoreStartContext(
            domain,
            token,
            context_payload(recap.chat_id, recap.chat_title@),
        ),
        Reply::Failed => FlowModel::Reply(RECAP_FAILED@),
        Reply::Got(_) => if never_started(error) {
            FlowModel::ReplyAndTrack(
                user_id,
                private_never_started(recap.bot_username@, token),
                true,
                true,
            )
        } else if blocked(error) {
            FlowModel::ReplyAndTrack(
                user_id,
                private_blocked(recap.bot_username@, token),
                true,
                true,
            )
        } else {
            FlowModel::Done
        },
    }
}

/// What is to be done for a command for a recap in private.
pub open spec fn private_step(recap: PrivateRecap) -> FlowModel {
    match recap.from {
        None => FlowModel::Done,
        Some(user) => match users::user_number(user) {
            None => FlowModel::Done,
            Some(user_id) => if users::anonymous(user) {
                FlowModel::ReplyAndTrack(user_id, ANONYMOUS_RECAP@, false, false)
            } else if !recap.store_available {
                FlowModel::Reply(RECAP_FAILED@)
            } else {
                let keyboard = keyboards::hour_keyboard(
                    recap.chat_id,
                    recap.chat_title@,
                    AUTO_RECAP_SEND_MODE_ONLY_PRIVATE_SUBSCRIPTIONS,
                );
                match recap.keyboard {
                    Reply::Pending => FlowModel::StoreKeyboard(keyboard),
                    Reply::Failed => FlowModel::Reply(RECAP_FAILED@),
                    Reply::Got(_) => match recap.direct {
                        DirectMessage::Pending => FlowModel::SendDirect(
                            user_id,
                            selector_text(recap.chat_title@),
                            Some(keyboard),
                        ),
                        DirectMessage::Sent => FlowModel::CleanUp(user_id),
                        DirectMessage::Refused(error) => private_refused(recap, user_id, error@),
                    },
                }
            },
        },
    }
}

fn refused_privately(
    recap: &PrivateRecap,
    user_id: i64,
    error: &TelegramRichMessageError,
) -> (step: FlowStep)
    ensures
        step@ == private_refused(*recap, user_id, error@),
{
    let domain = StartContextDomain::PrivateSubscription;
    match &recap.context {
        Reply::Pending => store_context(domain, recap.chat_id, recap.chat_title.as_str()),
        Reply::Failed => reply(RECAP_FAILED),
        Reply::Got(_) => {
            let token: String = domain.token(recap.chat_id);
            if is_cannot_initiate(error) {
                FlowStep::ReplyAndTrack {
                    user_id,
                    text: private_never_started_guidance(
                        recap.bot_username.as_str(),
                        token.as_str(),
                    ),
                    include_command: true,
                    html: true,
                }
            } else if is_blocked(error) {
                FlowStep::ReplyAndTrack {
                    user_id,
                    text: private_blocked_guidance(recap.bot_username.as_str(), token.as_str()),
                    include_command: true,
                    html: true,
                }
            } else {
                FlowStep::Done
            }
        },
    }
}

/// What is to be done for a command for a recap in private: the choice of hours is sent to
/// the user, and where that is refused, the group is told how to go on.
pub fn handle_private_recap_step(recap: &PrivateRecap) -> (step: FlowStep)
    ensures
        step@ == private_step(*recap),
{
    let user: &TelegramUser = match &recap.from {
        Some(user) => user,
        None => {
            return FlowStep::Done;
        },
    };
    let user_id: i64 = match users::telegram_user_id(user) {
        Some(user_id) => user_id,
        None => {
            return FlowStep::Done;
        },
    };
    if users::is_group_anonymous_bot(user) {
        return noted(user_id, ANONYMOUS_RECAP);
    }
    if !recap.store_available {
        return reply(RECAP_FAILED);
    }
    match &recap.keyboard {
        Reply::Pending => FlowStep::StoreKeyboard(
            build_select_hour_keyboard(
                recap.chat_id,
                recap.chat_title.as_str(),
                AUTO_RECAP_SEND_MODE_ONLY_PRIVATE_SUBSCRIPTIONS,
            ),
        ),
        Reply::Failed => reply(RECAP_FAILED),
        Reply::Got(_) => match &recap.direct {
            DirectMessage::Pending => FlowStep::SendDirect {
                user_id,
                text: private_recap_selector_text(recap.chat_title.as_str()),
                keyboard: Some(
                    build_select_hour_keyboard(
                        recap.chat_id,
                        recap.chat_title.as_str(),
                        AUTO_RECAP_SEND_MODE_ONLY_PRIVATE_SUBSCRIPTIONS,
                    ),
                ),
            },
            DirectMessage::Sent => FlowStep::CleanUp { user_id },
            DirectMessage::Refused(error) => refused_privately(recap, user_id, error),
        },
    }
}

// ---------------------------------------------------------------------------
// Subscribing
// ---------------------------------------------------------------------------

/// What is known of a command to subscribe so far.
pub struct Subscription {
    pub in_group: bool,
    pub from: Option<TelegramUser>,
    pub chat_id: i64,
    pub chat_title: String,
    pub bot_username: String,
    pub recap_enabled: Reply<bool>,
    pub direct: DirectMessage,
    pub stored: Reply<()>,
    pub store_available: bool,
    pub context: Reply<()>,
}

/// What is to be done once the message to the user was refused.
pub open spec fn subscribe_refused(
    subscription: Subscription,
    user_id: i64,
    error: SendErrorModel,
) -> FlowModel {
    let domain = StartContextDomain::SubscribeRecap;
    let token = keys::start_token(domain, subscription.chat_id as int);
    if !subscription.store_available {
        FlowModel::Reply(SUBSCRIPTION_ERROR@)
    } else {
        match subscription.context {
            Reply::Pending => FlowModel::StoreStartContext(
                domain,
                token,
                context_payload(subscription.chat_id, subscription.chat_title@),
            ),
            Reply::Failed => FlowModel::ReplyAndTrack(user_id, SUBSCRIPTION_ERROR@, false, false),
            Reply::Got(_) => if never_started(error) {
                FlowModel::ReplyAndTrack(
                    user_id,
                    subscription_never_started(subscription.bot_username@, token),
                    true,
                    true,
                )
            } else if blocked(error) {
                FlowModel::ReplyAndTrack(
                    user_id,
                    subscription_blocked(subscription.bot_username@, token),
                    true,
                    true,
                )
            } else {
                FlowModel::Done
            },
        }
    }
}

/// What is to be done for a command to subscribe: the user is told first, and only then
/// is the subscription stored.
pub open spec fn subscribe_step(subscription: Subscription) -> FlowModel {
    if !subscription.in_group {
        FlowModel::Reply(SUBSCRIBE_GROUPS_ONLY@)
    } else {
        match subscription.from {
            None => FlowModel::Done,
            Some(user) => match users::user_number(user) {
                None => FlowModel::Done,
                Some(user_id) => if users::anonymous(user) {
                    FlowModel::ReplyAndTrack(user_id, ANONYMOUS_SUBSCRIBE@, false, false)
                } else {
                    match subscription.recap_enabled {
                        Reply::Pending => FlowModel::ReadFlag,
                        Reply::Failed => FlowModel::ReplyAndTrack(
                            user_id,
                            SUBSCRIPTION_ERROR@,
                            false,
                            false,
                        ),
                        Reply::Got(enabled) => if !enabled {
                            FlowModel::ReplyAndTrack(user_id, SUBSCRIBE_NOT_ENABLED@, false, false)
                        } else {
                            match subscription.direct {
                                DirectMessage::Pending => FlowModel::SendDirect(
                                    user_id,
                                    subscribed(subscription.chat_title@),
                                    None,
                                ),
                                DirectMessage::Sent => match subscription.stored {
                                    Reply::Pending => FlowModel::Subscribe(user_id),
                                    Reply::Failed => FlowModel::ReplyAndTrack(
                                        user_id,
                                        SUBSCRIPTION_ERROR@,
                                        false,
                                        false,
                                    ),
                                    Reply::Got(_) => FlowModel::CleanUp(user_id),
                                },
                                DirectMessage::Refused(error) => subscribe_refused(
                                    subscription,
                                    user_id,
                                    error@,
                                ),
                            }
                        },
                    }
                },
            },
        }
    }
}

fn refused_subscription(
    subscription: &Subscription,
    user_id: i64,
    error: &TelegramRichMessageError,
) -> (step: FlowStep)
    ensures
        step@ == subscribe_refused(*subscription, user_id, error@),
{
    let domain = StartContextDomain::SubscribeRecap;
    if !subscription.store_available {
        return reply(SUBSCRIPTION_ERROR);
    }
    match &subscription.context {
        Reply::Pending => store_context(
            domain,
            subscription.chat_id,
            subscription.chat_title.as_str(),
        ),
        Reply::Failed => noted(user_id, SUBSCRIPTION_ERROR),
        Reply::Got(_) => {
            let token: String = domain.token(subscription.chat_id);
            if is_cannot_initiate(error) {
                FlowStep::ReplyAndTrack {
                    user_id,
                    text: subscription_never_started_guidance(
                        subscription.bot_username.as_str(),
                        token.as_str(),
                    ),
                    include_command: true,
                    html: true,
                }
            } else if is_blocked(error) {
                FlowStep::ReplyAndTrack {
                    user_id,
                    text: subscription_blocked_guidance(
                        subscription.bot_username.as_str(),
                        token.as_str(),
                    ),
                    include_command: true,
                    html: true,
                }
            } else {
                FlowStep::Done
            }
        },
    }
}

/// What is to be done for a command to subscribe.
pub fn handle_subscribe_recap_step(subscription: &Subscription) -> (step: FlowStep)
    ensures
        step@ == subscribe_step(*subscription),
{
    if !subscription.in_group {
        return reply(SUBSCRIBE_GROUPS_ONLY);
    }
    let user: &TelegramUser = match &subscription.from {
        Some(user) => user,
        None => {
            return FlowStep::Done;
        },
    };
    let user_id: i64 = match users::telegram_user_id(user) {
        Some(user_id) => user_id,
        None => {
            return FlowStep::Done;
        },
    };
    if users::is_group_anonymous_bot(user) {
        return noted(user_id, ANONYMOUS_SUBSCRIBE);
    }
    match &subscription.recap_enabled {
        Reply::Pending => {
            return FlowStep::ReadFlag;
        },
        Reply::Failed => {
            return noted(user_id, SUBSCRIPTION_ERROR);
        },
        Reply::Got(enabled) => {
            if !*enabled {
                return noted(user_id, SUBSCRIBE_NOT_ENABLED);
            }
        },
    }
    match &subscription.direct {
        DirectMessage::Pending => FlowStep::SendDirect {
            user_id,
            text: subscribed_message(subscription.chat_title.as_str()),
            keyboard: None,
        },
        DirectMessage::Sent => match &subscription.stored {
            Reply::Pending => FlowStep::Subscribe { user_id },
            Reply::Failed => noted(user_id, SUBSCRIPTION_ERROR),
            Reply::Got(_) => FlowStep::CleanUp { user_id },
        },
        DirectMessage::Refused(error) => refused_subscription(subscription, user_id, error),
    }
}

/// No subscription is stored before the user could be told.
pub proof fn lemma_told_before_stored(subscription: Subscription)
    requires
        subscribe_step(subscription) is Subscribe,
    ensures
        subscription.direct is Sent,
        subscription.in_group,
        subscription.recap_enabled == Reply::Got(true),
        subscription.from matches Some(user) && !users::anonymous(user),
{
}

// ---------------------------------------------------------------------------
// Unsubscribing
// ---------------------------------------------------------------------------

/// What is known of a command to unsubscribe so far.
pub struct Unsubscription {
    pub in_group: bool,
    pub from: Option<TelegramUser>,
    pub chat_title: String,
    pub removed: Reply<()>,
    /// How often the command was taken away.
    pub deletions: usize,
    pub direct: DirectMessage,
}

/// What is to be done for a command to unsubscribe: the subscription goes first, then the
/// command, then the user is told; where the user cannot be told, the command is taken
/// away once more.
pub open spec fn unsubscribe_step(unsubscription: Unsubscription) -> FlowModel {
    if !unsubscription.in_group {
        FlowModel::Reply(UNSUBSCRIBE_GROUPS_ONLY@)
    } else {
        match unsubscription.from {
            None => FlowModel::Done,
            Some(user) => if users::anonymous(user) {
                if unsubscription.deletions == 0 {
                    FlowModel::DeleteCommand
                } else {
                    FlowModel::Done
                }
            } else {
                match users::user_number(user) {
                    None => FlowModel::Done,
                    Some(user_id) => match unsubscription.removed {
                        Reply::Pending => FlowModel::Unsubscribe(user_id),
                        Reply::Failed => FlowModel::ReplyAndTrack(
                            user_id,
                            SUBSCRIPTION_ERROR@,
                            false,
                            false,
                        ),
                        Reply::Got(_) => if unsubscription.deletions == 0 {
                            FlowModel::DeleteCommand
                        } else {
                            match unsubscription.direct {
                                DirectMessage::Pending => FlowModel::SendDirect(
                                    user_id,
                                    unsubscribed(unsubscription.chat_title@),
                                    None,
                                ),
                                DirectMessage::Sent => FlowModel::Done,
                                DirectMessage::Refused(error) => if (never_started(error@)
                                    || blocked(error@)) && unsubscription.deletions == 1 {
                                    FlowModel::DeleteCommand
                                } else {
                                    FlowModel::Done
                                },
                            }
                        },
                    },
                }
            },
        }
    }
}

/// What is to be done for a command to unsubscribe.
pub fn handle_unsubscribe_recap_step(unsubscription: &Unsubscription) -> (step: FlowStep)
    ensures
        step@ == unsubscribe_step(*unsubscription),
{
    if !unsubscription.in_group {
        return reply(UNSUBSCRIBE_GROUPS_ONLY);
    }
    let user: &TelegramUser = match &unsubscription.from {
        Some(user) => user,
        None => {
            return FlowStep::Done;
        },
    };
    if users::is_group_anonymous_bot(user) {
        return if unsubscription.deletions == 0 {
            FlowStep::DeleteCommand
        } else {
            FlowStep::Done
        };
    }
    let user_id: i64 = match users::telegram_user_id(user) {
        Some(user_id) => user_id,
        None => {
            return FlowStep::Done;
        },
    };
    match &unsubscription.removed {
        Reply::Pending => {
            return FlowStep::Unsubscribe { user_id };
        },
        Reply::Failed => {
            return noted(user_id, SUBSCRIPTION_ERROR);
        },
        Reply::Got(_) => {},
    }
    if unsubscription.deletions == 0 {
        return FlowStep::DeleteCommand;
    }
    match &unsubscription.direct {
        DirectMessage::Pending => FlowStep::SendDirect {
            user_id,
            text: unsubscribed_message(unsubscription.chat_title.as_str()),
            keyboard: None,
        },
        DirectMessage::Sent => FlowStep::Done,
        DirectMessage::Refused(error) => {
            if (is_cannot_initiate(error) || is_blocked(error)) && unsubscription.deletions == 1 {
                FlowStep::DeleteCommand
            } else {
                FlowStep::Done
            }
        },
    }
}

/// The user is told only once the subscription is gone.
pub proof fn lemma_removed_before_told(unsubscription: Unsubscription)
    requires
        unsubscribe_step(unsubscription) is SendDirect,
    ensures
        unsubscription.removed is Got,
        unsubscription.deletions > 0,
{
}

// ---------------------------------------------------------------------------
// Links
// ---------------------------------------------------------------------------

/// What is known of a start command with a link's token so far.
pub struct Continuation {
    pub arguments: String,
    pub store_available: bool,
    pub from: Option<TelegramUser>,
    /// What a recap in private was begun for.
    pub private_context: Reply<Option<PrivateSubscriptionStartContext>>,
    pub keyboard: Reply<()>,
    /// What was to be subscribed to.
    pub subscription_context: Reply<Option<PrivateSubscriptionStartContext>>,
    pub stored: Reply<()>,
}

/// What is to be done for a start command.
#[derive(Debug, PartialEq, Eq)]
pub enum ContinuationStep {
    /// The command is an ordinary one.
    NotHandled,
    /// Look for what the token leads back to.
    ReadContext(StartContextDomain),
    StoreKeyboard(KeyboardPlan),
    Subscribe { chat_id: i64, user_id: i64 },
    /// Clean up for the user, ask for the hours in a reply in HTML, and end.
    AskHours { clean_up: Option<i64>, text: String, keyboard: KeyboardPlan },
    /// Clean up for the user, say this in HTML, and end.
    Say { clean_up: i64, text: String },
    /// Reply with this, and end.
    Reply { text: String },
}

#[verifier::ext_equal]
pub enum ContinuationModel {
    NotHandled,
    ReadContext(StartContextDomain),
    StoreKeyboard(KeyboardModel),
    Subscribe(i64, i64),
    AskHours(Option<i64>, Seq<char>, KeyboardModel),
    Say(i64, Seq<char>),
    Reply(Seq<char>),
}

impl View for ContinuationStep {
    type V = ContinuationModel;

    open spec fn view(&self) -> ContinuationModel {
        match self {
            ContinuationStep::NotHandled => ContinuationModel::NotHandled,
            ContinuationStep::ReadContext(domain) => ContinuationModel::ReadContext(*domain),
            ContinuationStep::StoreKeyboard(plan) => ContinuationModel::StoreKeyboard(plan@),
            ContinuationStep::Subscribe { chat_id, user_id } => ContinuationModel::Subscribe(
                *chat_id,
                *user_id,
            ),
            ContinuationStep::AskHours { clean_up, text, keyboard } => ContinuationModel::AskHours(
                *clean_up,
                text@,
                keyboard@,
            ),
            ContinuationStep::Say { clean_up, text } => ContinuationModel::Say(*clean_up, text@),
            ContinuationStep::Reply { text } => ContinuationModel::Reply(text@),
        }
    }
}

pub open spec fn number_of(from: Option<TelegramUser>) -> Option<i64> {
    match from {
        Some(user) => users::user_number(user),
        None => None,
    }
}

/// What is to be done where no recap in private was begun.
pub open spec fn subscription_continued(continuation: Continuation) -> ContinuationModel {
    match (continuation.from, number_of(continuation.from)) {
        (Some(user), Some(user_id)) => if users::anonymous(user) {
            ContinuationModel::NotHandled
        } else {
            match continuation.subscription_context {
                Reply::Pending => ContinuationModel::ReadContext(
                    StartContextDomain::SubscribeRecap,
                ),
                Reply::Failed => ContinuationModel::NotHandled,
                Reply::Got(None) => ContinuationModel::NotHandled,
                Reply::Got(Some(context)) => match continuation.stored {
                    Reply::Pending => ContinuationModel::Subscribe(context.chat_id, user_id),
                    Reply::Failed => ContinuationModel::Reply(SUBSCRIPTION_ERROR@),
                    Reply::Got(_) => ContinuationModel::Say(
                        user_id,
                        subscribed(context.chat_title@),
                    ),
                },
            }
        },
        _ => ContinuationModel::NotHandled,
    }
}

/// What is to be done for a start command: a token leads back to a recap in private, or
/// else to a subscription, or else the command is an ordinary one.
pub open spec fn continuation_step(continuation: Continuation) -> ContinuationModel {
    if continuation.arguments@.contains(' ') || !continuation.store_available {
        ContinuationModel::NotHandled
    } else {
        match continuation.private_context {
            Reply::Pending => ContinuationModel::ReadContext(
                StartContextDomain::PrivateSubscription,
            ),
            Reply::Got(Some(context)) => {
                let keyboard = keyboards::hour_keyboard(
                    context.chat_id,
                    context.chat_title@,
                    AUTO_RECAP_SEND_MODE_ONLY_PRIVATE_SUBSCRIPTIONS,
                );
                match continuation.keyboard {
                    Reply::Pending => ContinuationModel::StoreKeyboard(keyboard),
                    Reply::Failed => ContinuationModel::Reply(RECAP_FAILED@),
                    Reply::Got(_) => ContinuationModel::AskHours(
                        number_of(continuation.from),
                        selector_text(context.chat_title@),
                        keyboard,
                    ),
                }
            },
            Reply::Failed => subscription_continued(continuation),
            Reply::Got(None) => subscription_continued(continuation),
        }
    }
}

fn continue_subscription(continuation: &Continuation) -> (step: ContinuationStep)
    ensures
        step@ == subscription_continued(*continuation),
{
    let user: &TelegramUser = match &continuation.from {
        Some(user) => user,
        None => {
            return ContinuationStep::NotHandled;
        },
    };
    let user_id: i64 = match users::telegram_user_id(user) {
        Some(user_id) => user_id,
        None => {
            return ContinuationStep::NotHandled;
        },
    };
    if users::is_group_anonymous_bot(user) {
        return ContinuationStep::NotHandled;
    }
    match &continuation.subscription_context {
        Reply::Pending => ContinuationStep::ReadContext(StartContextDomain::SubscribeRecap),
        Reply::Failed => ContinuationStep::NotHandled,
        Reply::Got(None) => ContinuationStep::NotHandled,
        Reply::Got(Some(context)) => match &continuation.stored {
            Reply::Pending => ContinuationStep::Subscribe { chat_id: context.chat_id, user_id },
            Reply::Failed => ContinuationStep::Reply { text: SUBSCRIPTION_ERROR.to_owned() },
            Reply::Got(_) => ContinuationStep::Say {
                clean_up: user_id,
                text: subscribed_message(context.chat_title.as_str()),
            },
        },
    }
}

/// What is to be done for a start command.
pub fn handle_start_continuation_step(continuation: &Continuation) -> (step: ContinuationStep)
    ensures
        step@ == continuation_step(*continuation),
{
    if text::contains_char(continuation.arguments.as_str(), ' ') || !continuation.store_available {
        return ContinuationStep::NotHandled;
    }
    match &continuation.private_context {
        Reply::Pending => ContinuationStep::ReadContext(StartContextDomain::PrivateSubscription),
        Reply::Got(Some(context)) => match &continuation.keyboard {
            Reply::Pending => ContinuationStep::StoreKeyboard(
                build_select_hour_keyboard(
                    context.chat_id,
                    context.chat_title.as_str(),
                    AUTO_RECAP_SEND_MODE_ONLY_PRIVATE_SUBSCRIPTIONS,
                ),
            ),
            Reply::Failed => ContinuationStep::Reply { text: RECAP_FAILED.to_owned() },
            Reply::Got(_) => ContinuationStep::AskHours {
                clean_up: match &continuation.from {
                    Some(user) => users::telegram_user_id(user),
                    None => None,
                },
                text: private_recap_selector_text(context.chat_title.as_str()),
                keyboard: build_select_hour_keyboard(
                    context.chat_id,
                    context.chat_title.as_str(),
                    AUTO_RECAP_SEND_MODE_ONLY_PRIVATE_SUBSCRIPTIONS,
                ),
            },
        },
        Reply::Failed => continue_subscription(continuation),
        Reply::Got(None) => continue_subscription(continuation),
    }
}

// ---------------------------------------------------------------------------
// The button to unsubscribe
// ---------------------------------------------------------------------------

/// What is to be done for the button to unsubscribe.
#[derive(Debug, Clone, Copy, PartialEq, Eq, Structural)]
pub enum UnsubscribeButtonStep {
    /// Only the user that the button was made for may press it.
    Ignore,
    /// Say in the message that it went wrong.
    EditError,
    Unsubscribe { chat_id: i64, user_id: i64 },
    /// Take the button away, and confirm.
    Confirm,
}

/// What is to be done for the button to unsubscribe, where `data` is what it carries, none
/// where that could not be read.
pub open spec fn unsubscribe_button(
    data: Option<payloads::UnsubscribeRecapActionData>,
    user: TelegramUser,
    removed: Reply<()>,
) -> UnsubscribeButtonStep {
    match data {
        None => UnsubscribeButtonStep::EditError,
        Some(data) => match users::user_number(user) {
            None => UnsubscribeButtonStep::Ignore,
            Some(user_id) => if data.from_id != user_id {
                UnsubscribeButtonStep::Ignore
            } else {
                match removed {
                    Reply::Pending => UnsubscribeButtonStep::Unsubscribe {
                        chat_id: data.chat_id,
                        user_id,
                    },
                    Reply::Failed => UnsubscribeButtonStep::EditError,
                    Reply::Got(_) => UnsubscribeButtonStep::Confirm,
                }
            },
        },
    }
}

/// What is to be done for the button to unsubscribe.
pub fn handle_unsubscribe_callback_step(
    data: &Option<payloads::UnsubscribeRecapActionData>,
    user: &TelegramUser,
    removed: &Reply<()>,
) -> (step: UnsubscribeButtonStep)
    ensures
        step == unsubscribe_button(*data, *user, *removed),
{
    match data {
        None => UnsubscribeButtonStep::EditError,
        Some(data) => match users::telegram_user_id(user) {
            None => UnsubscribeButtonStep::Ignore,
            Some(user_id) => {
                if data.from_id != user_id {
                    return UnsubscribeButtonStep::Ignore;
                }
                match removed {
                    Reply::Pending => UnsubscribeButtonStep::Unsubscribe {
                        chat_id: data.chat_id,
                        user_id,
                    },
                    Reply::Failed => UnsubscribeButtonStep::EditError,
                    Reply::Got(_) => UnsubscribeButtonStep::Confirm,
                }
            },
        },
    }
}

/// Nobody is unsubscribed by someone else's press.
pub proof fn lemma_own_button_only(
    data: Option<payloads::UnsubscribeRecapActionData>,
    user: TelegramUser,
    removed: Reply<()>,
)
    ensures
        match unsubscribe_button(data, user, removed) {
            UnsubscribeButtonStep::Unsubscribe { user_id, .. } => data matches Some(found)
                && found.from_id == user_id && user.id == user_id,
            _ => true,
        },
{
}

/// Where the pressed button stands in a row, or past its end.
pub open spec fn pressed_at(row: Seq<Option<Seq<char>>>, clicked: Seq<char>, i: int) -> int
    decreases row.len() - i,
{
    if i < 0 || i >= row.len() {
        row.len() as int
    } else if row[i] == Some(clicked) {
        i
    } else {
        pressed_at(row, clicked, i + 1)
    }
}

/// The places of a row that stay: all but the first that carries what was pressed.
pub open spec fn staying(row: Seq<Option<Seq<char>>>, clicked: Seq<char>, i: int) -> Seq<usize>
    decreases row.len() - i,
{
    if i < 0 || i >= row.len() {
        Seq::empty()
    } else if i == pressed_at(row, clicked, 0) {
        staying(row, clicked, i + 1)
    } else {
        seq![i as usize] + staying(row, clicked, i + 1)
    }
}

pub open spec fn wires(row: Seq<Option<String>>) -> Seq<Option<Seq<char>>> {
    Seq::new(row.len(), |i: int| text::viewed(row[i]))
}

fn carries(wire: &Option<String>, clicked: &str) -> (r: bool)
    ensures
        r == (text::viewed(*wire) == Some(clicked@)),
{
    match wire {
        Some(wire) => same(wire.as_str(), clicked),
        None => false,
    }
}

/// The places of one row that stay once a button was pressed.
fn remaining_in_row(row: &Vec<Option<String>>, clicked: &str) -> (out: Vec<usize>)
    ensures
        out@ == staying(wires(row@), clicked@, 0),
{
    let ghost all = wires(row@);
    let mut gone: usize = 0;
    while gone < row.len() && !carries(&row[gone], clicked)
        invariant
            gone <= row.len(),
            all == wires(row@),
            pressed_at(all, clicked@, gone as int) == pressed_at(all, clicked@, 0),
        decreases row.len() - gone,
    {
        assert(all[gone as int] == text::viewed(row@[gone as int]));
        gone = gone + 1;
    }
    assert(gone < row.len() ==> all[gone as int] == text::viewed(row@[gone as int]));
    assert(gone == pressed_at(all, clicked@, 0));
    let mut out: Vec<usize> = Vec::new();
    let mut i: usize = 0;
    assert(out@ + staying(all, clicked@, 0) =~= staying(all, clicked@, 0));
    while i < row.len()
        invariant
            i <= row.len(),
            all == wires(row@),
            gone == pressed_at(all, clicked@, 0),
            out@ + staying(all, clicked@, i as int) == staying(all, clicked@, 0),
        decreases row.len() - i,
    {
        let ghost before = out@;
        if i != gone {
            out.push(i);
        }
        i = i + 1;
        assert(out@ + staying(all, clicked@, i as int) =~= before + staying(
            all,
            clicked@,
            i - 1,
        ));
    }
    assert(out@ =~= staying(all, clicked@, 0));
    out
}

pub open spec fn rows_wires(rows: Seq<Vec<Option<String>>>) -> Seq<Seq<Option<Seq<char>>>> {
    Seq::new(rows.len(), |r: int| wires(rows[r]@))
}

pub open spec fn places(rows: Seq<(usize, Vec<usize>)>) -> Seq<(usize, Seq<usize>)> {
    Seq::new(rows.len(), |r: int| (rows[r].0, rows[r].1@))
}

/// The rows from `r` on that stay, with the places in them that stay; an empty row goes.
pub open spec fn staying_rows(
    rows: Seq<Seq<Option<Seq<char>>>>,
    clicked: Seq<char>,
    r: int,
) -> Seq<(usize, Seq<usize>)>
    decreases rows.len() - r,
{
    if r < 0 || r >= rows.len() {
        Seq::empty()
    } else if staying(rows[r], clicked, 0).len() == 0 {
        staying_rows(rows, clicked, r + 1)
    } else {
        seq![(r as usize, staying(rows[r], clicked, 0))] + staying_rows(rows, clicked, r + 1)
    }
}

/// The rows of a keyboard that stay once a button was pressed, with the places in them
/// that stay.
pub fn remaining_rows(rows: &Vec<Vec<Option<String>>>, clicked: &str) -> (out: Vec<
    (usize, Vec<usize>),
>)
    ensures
        places(out@) == staying_rows(rows_wires(rows@), clicked@, 0),
{
    let ghost all = rows_wires(rows@);
    let mut out: Vec<(usize, Vec<usize>)> = Vec::new();
    let mut r: usize = 0;
    assert(places(out@) + staying_rows(all, clicked@, 0) =~= staying_rows(all, clicked@, 0));
    while r < rows.len()
        invariant
            r <= rows.len(),
            all == rows_wires(rows@),
            places(out@) + staying_rows(all, clicked@, r as int) == staying_rows(
                all,
                clicked@,
                0,
            ),
        decreases rows.len() - r,
    {
        let ghost before = places(out@);
        let left: Vec<usize> = remaining_in_row(&rows[r], clicked);
        assert(all[r as int] == wires(rows@[r as int]@));
        if left.len() > 0 {
            out.push((r, left));
            assert(places(out@) =~= before.push((r, left@)));
        }
        r = r + 1;
        assert(places(out@) + staying_rows(all, clicked@, r as int) =~= before + staying_rows(
            all,
            clicked@,
            r - 1,
        ));
    }
    assert(places(out@) =~= staying_rows(all, clicked@, 0));
    out
}

// ---------------------------------------------------------------------------
// Members who leave
// ---------------------------------------------------------------------------

/// Whose subscription ends when a member leaves: everyone's but the bot's own.
pub fn departed_subscriber(left: &TelegramUser, bot_id: u64) -> (r: Option<i64>)
    ensures
        r == if left.id == bot_id {
            None
        } else {
            users::user_number(*left)
        },
{
    if left.id == bot_id {
        None
    } else {
        users::telegram_user_id(left)
    }
}

} // verus!
