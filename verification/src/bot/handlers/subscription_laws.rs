//! What holds of recaps in private: who is told, who is subscribed and to what, and what
//! a link leads back to.

use vstd::prelude::*;

use crate::bot::handlers::recap_manual;
use crate::bot::handlers::recap_subscription::{
    self, Continuation, ContinuationModel, DirectMessage, FlowModel, PrivateRecap, Subscription,
    UnsubscribeButtonStep, Unsubscription,
};
use crate::bot::keyboards;
use crate::bot::payloads;
use crate::bot::users::TelegramUser;
use crate::numeral;
use crate::redis::keys::{self, StartContextDomain};
use crate::reply::Reply;
use crate::services::telegram_rich_message::{self, SendErrorModel};
use crate::text;

verus! {

// ---------------------------------------------------------------------------
// Who asks
// ---------------------------------------------------------------------------

/// Whether the account is the shared one that administrators hide behind.
pub open spec fn hides(user: TelegramUser) -> bool {
    &&& user.id == 1_087_968_824
    &&& user.is_bot
    &&& text::viewed(user.username) == Some("GroupAnonymousBot"@)
    &&& user.first_name@ == "Group"@
}

/// Whether a person with this number asks.
pub open spec fn asked_by(from: Option<TelegramUser>, user_id: i64) -> bool {
    from matches Some(user) && user.id == user_id && !hides(user)
}

/// Whether the user cannot be written to for want of a talk with the bot.
pub open spec fn never_talked(direct: DirectMessage) -> bool {
    direct matches DirectMessage::Refused(error) && (error@ matches SendErrorModel::Api {
        code,
        description,
        ..
    } && code == 403 && description == "Forbidden: bot can't initiate conversation with a user"@)
}

/// Whether the user has blocked the bot.
pub open spec fn has_blocked(direct: DirectMessage) -> bool {
    direct matches DirectMessage::Refused(error) && (error@ matches SendErrorModel::Api {
        code,
        description,
        ..
    } && code == 403 && description == "Forbidden: bot was blocked by the user"@)
}

/// What a link back to a chat carries: its number and its title.
pub open spec fn leads_to(payload: Seq<char>, chat_id: i64, chat_title: Seq<char>) -> bool {
    payload == payloads::html_safe(
        "{\"chat_id\":"@ + numeral::decimal(chat_id as int) + ",\"chat_title\":"@
            + telegram_rich_message::json_string(chat_title) + "}"@,
    )
}

/// How a name stands in a text in HTML.
pub open spec fn harmless(name: Seq<char>) -> Seq<char> {
    recap_manual::attribute_escaped(name)
}

/// Whether a text shows the link of the bot with this token.
pub open spec fn links(said: Seq<char>, bot: Seq<char>, token: Seq<char>) -> bool {
    text::occurs(said, bot + "?start="@ + token)
}

proof fn lemma_links(before: Seq<char>, bot: Seq<char>, token: Seq<char>, behind: Seq<char>)
    ensures
        links(before + bot + "?start="@ + token + behind, bot, token),
{
    let shown = bot + "?start="@ + token;
    let said = before + bot + "?start="@ + token + behind;
    assert(said.subrange(before.len() as int, before.len() as int + shown.len()) =~= shown);
    assert(text::matches_at(said, shown, before.len() as int));
}

// ---------------------------------------------------------------------------
// Subscribing
// ---------------------------------------------------------------------------

/// Whether a command to subscribe is one that can be met.
pub open spec fn may_subscribe(subscription: Subscription, user_id: i64) -> bool {
    &&& subscription.in_group
    &&& asked_by(subscription.from, user_id)
    &&& subscription.recap_enabled == Reply::Got(true)
}

/// The one who asks is told, and then subscribed: no one else, not before, and not where
/// recaps are switched off.
pub proof fn lemma_subscribes_who_asked(subscription: Subscription, user_id: i64)
    ensures
        ({
            let step = recap_subscription::subscribe_step(subscription);
            let may = may_subscribe(subscription, user_id);
            &&& step == FlowModel::Subscribe(user_id) <==> may && subscription.direct is Sent
                && subscription.stored is Pending
            &&& (step is SendDirect && step->SendDirect_0 == user_id) <==> may
                && subscription.direct is Pending
            &&& step is SendDirect ==> step->SendDirect_1 == "您已成功订阅群组 <b>"@
                + harmless(subscription.chat_title@)
                + "</b> 的定时聊天回顾！"@ && step->SendDirect_2 is None
            &&& step == FlowModel::CleanUp(user_id) <==> may && subscription.direct is Sent
                && subscription.stored is Got
            &&& step is ReadFlag <==> subscription.in_group && (exists|someone: i64|
                asked_by(subscription.from, someone)) && subscription.recap_enabled is Pending
            &&& !(step is Unsubscribe || step is StoreKeyboard || step is DeleteCommand)
            &&& step is Reply && !subscription.in_group ==> step->Reply_0
                == "只有在群组和超级群组内才可以订阅定时的聊天记录回顾哦！"@
            &&& !subscription.in_group ==> step is Reply
        }),
{
    if let Some(user) = subscription.from {
        if user.id <= i64::MAX {
            assert(hides(user) || asked_by(subscription.from, user.id as i64));
        }
    }
}

/// Where the one who asks cannot be told, what was begun is kept under a link, and the
/// group is shown the link, in words for the reason.
pub proof fn lemma_refused_subscription_goes_on(subscription: Subscription, user_id: i64)
    requires
        may_subscribe(subscription, user_id),
        subscription.direct is Refused,
    ensures
        ({
            let step = recap_subscription::subscribe_step(subscription);
            let domain = StartContextDomain::SubscribeRecap;
            let token = keys::start_token(domain, subscription.chat_id as int);
            let told = step is ReplyAndTrack && step->ReplyAndTrack_0 == user_id;
            if !subscription.store_available {
                step is Reply
            } else {
                match subscription.context {
                    Reply::Pending => step is StoreStartContext && step->StoreStartContext_0
                        == domain && step->StoreStartContext_1 == token && leads_to(
                        step->StoreStartContext_2,
                        subscription.chat_id,
                        subscription.chat_title@,
                    ),
                    Reply::Failed => told,
                    Reply::Got(_) => if never_talked(subscription.direct) {
                        told && guides(
                            step,
                            "抱歉，在为您订阅本群组定时聊天回顾时出现了问题，这似乎是因为您<b>从未</b>和本 Bot（@"@,
                            subscription.bot_username@,
                            token,
                        )
                    } else if has_blocked(subscription.direct) {
                        told && guides(
                            step,
                            "抱歉，在为您订阅本群组定时聊天回顾时出现了问题，这似乎是因为您已将本 Bot（@"@,
                            subscription.bot_username@,
                            token,
                        )
                    } else {
                        step is Done
                    },
                }
            }
        }),
{
    let token = keys::start_token(StartContextDomain::SubscribeRecap, subscription.chat_id as int);
    let bot = subscription.bot_username@;
    let first = "抱歉，在为您订阅本群组定时聊天回顾时出现了问题，这似乎是因为您<b>从未</b>和本 Bot（@"@;
    let second = "抱歉，在为您订阅本群组定时聊天回顾时出现了问题，这似乎是因为您已将本 Bot（@"@;
    let a = "） <b>发起过对话</b>导致的。\n\n订阅群组的聊天回顾需要 Bot 需要有权限通过私聊的方式向您定期发送聊天回顾，届时，您需要完成以下任一一个操作后方可完成订阅：\n1. <b>点击链接</b> https://t.me/"@;
    let b = " 与 Bot 开始对话；\n2. 点击 Bot 头像并且开始对话，然后在群组内重新发送 /subscribe_recap 命令来订阅本群组的定时聊天回顾。"@;
    let c = "）<b>停用</b>或是添加到了<b>黑名单</b>中导致的。\n\n订阅群组的聊天回顾需要 Bot 需要有权限通过私聊的方式向您定期发送聊天回顾，届时，您需要根据下面的提示进行操作：\n1. 将 Bot 从<b>黑名单中移除</b>；\n2. <b>点击链接</b> https://t.me/"@;
    let d = " 继续订阅本群组的定时聊天回顾操作，或是在群组内重新发送 /subscribe_recap 命令来订阅本群组的定时聊天回顾。"@;
    lemma_guidance(first, bot, a, token, b);
    lemma_guidance(second, bot, c, token, d);
}

/// Whether a step explains in HTML how to go on, with a beginning for the reason and the
/// link to follow, and has the command taken away later.
pub open spec fn guides(
    step: FlowModel,
    beginning: Seq<char>,
    bot: Seq<char>,
    token: Seq<char>,
) -> bool {
    &&& step is ReplyAndTrack
    &&& step->ReplyAndTrack_2
    &&& step->ReplyAndTrack_3
    &&& beginning.is_prefix_of(step->ReplyAndTrack_1)
    &&& links(step->ReplyAndTrack_1, bot, token)
}

proof fn lemma_guidance(
    beginning: Seq<char>,
    bot: Seq<char>,
    middle: Seq<char>,
    token: Seq<char>,
    behind: Seq<char>,
)
    ensures
        ({
            let said = beginning + bot + middle + bot + "?start="@ + token + behind;
            beginning.is_prefix_of(said) && links(said, bot, token)
        }),
{
    lemma_links(beginning + bot + middle, bot, token, behind);
    let said = beginning + bot + middle + bot + "?start="@ + token + behind;
    assert(said.subrange(0, beginning.len() as int) =~= beginning);
}

// ---------------------------------------------------------------------------
// Unsubscribing
// ---------------------------------------------------------------------------

/// The subscription of the one who asks is removed, and no one else's; the command goes,
/// and then the one who asked is told.
pub proof fn lemma_unsubscribes_who_asked(unsubscription: Unsubscription, user_id: i64)
    ensures
        ({
            let step = recap_subscription::unsubscribe_step(unsubscription);
            let may = unsubscription.in_group && asked_by(unsubscription.from, user_id);
            let gone = may && unsubscription.removed is Got;
            &&& step == FlowModel::Unsubscribe(user_id) <==> may
                && unsubscription.removed is Pending
            &&& (step is SendDirect && step->SendDirect_0 == user_id) <==> gone
                && unsubscription.deletions > 0 && unsubscription.direct is Pending
            &&& step is SendDirect ==> step->SendDirect_1 == "您已成功取消订阅群组 <b>"@ + harmless(
                unsubscription.chat_title@,
            ) + "</b> 的定时聊天回顾！"@ && step->SendDirect_2 is None
            &&& gone && unsubscription.deletions == 0 ==> step is DeleteCommand
            &&& gone && unsubscription.deletions == 1 && (never_talked(unsubscription.direct)
                || has_blocked(unsubscription.direct)) ==> step is DeleteCommand
            &&& gone && unsubscription.direct is Sent && unsubscription.deletions > 0
                ==> step is Done
            &&& may && unsubscription.removed is Failed ==> step is ReplyAndTrack
                && step->ReplyAndTrack_0 == user_id
            &&& !(step is Subscribe || step is StoreKeyboard || step is StoreStartContext
                || step is CleanUp || step is ReadFlag)
            &&& !unsubscription.in_group <==> step is Reply
        }),
{
}

/// One who hides is not unsubscribed: the command is taken away once.
pub proof fn lemma_hidden_unsubscription(unsubscription: Unsubscription)
    requires
        unsubscription.in_group,
        unsubscription.from matches Some(user) && hides(user),
    ensures
        recap_subscription::unsubscribe_step(unsubscription) is DeleteCommand
            <==> unsubscription.deletions == 0,
        recap_subscription::unsubscribe_step(unsubscription) is Done
            <==> unsubscription.deletions > 0,
{
}

/// The button unsubscribes the one who presses it from the chat that it was made for.
pub proof fn lemma_button_unsubscribes_its_owner(
    chat_id: i64,
    from_id: i64,
    data: payloads::UnsubscribeRecapActionData,
    user: TelegramUser,
    removed: Reply<()>,
)
    requires
        data.chat_id == chat_id,
        data.from_id == from_id,
    ensures
        ({
            let step = recap_subscription::unsubscribe_button(Some(data), user, removed);
            if user.id == from_id {
                match removed {
                    Reply::Pending => step == (UnsubscribeButtonStep::Unsubscribe {
                        chat_id,
                        user_id: from_id,
                    }),
                    Reply::Failed => step is EditError,
                    Reply::Got(_) => step is Confirm,
                }
            } else {
                step is Ignore
            }
        }),
        recap_subscription::unsubscribe_button(None, user, removed) is EditError,
{
}

// ---------------------------------------------------------------------------
// A recap in private
// ---------------------------------------------------------------------------

/// The choice of hours for the chat goes to the one who asks, in private.
pub proof fn lemma_hours_go_to_who_asked(recap: PrivateRecap, user_id: i64)
    requires
        asked_by(recap.from, user_id),
        recap.store_available,
    ensures
        ({
            let step = recap_subscription::private_step(recap);
            let keyboard = keyboards::hour_keyboard(recap.chat_id, recap.chat_title@, 1);
            &&& step is StoreKeyboard <==> recap.keyboard is Pending
            &&& step is StoreKeyboard ==> step->StoreKeyboard_0 == keyboard
            &&& step is SendDirect <==> recap.keyboard is Got && recap.direct is Pending
            &&& step is SendDirect ==> step->SendDirect_0 == user_id && step->SendDirect_1
                == "您正在请求为群组 <b>"@ + harmless(recap.chat_title@)
                + "</b> 创建聊天回顾。\n请问您要为过去几个小时内的聊天创建回顾呢？"@ && step->SendDirect_2 == Some(
                keyboard,
            )
            &&& step == FlowModel::CleanUp(user_id) <==> recap.keyboard is Got
                && recap.direct is Sent
            &&& !(step is Subscribe || step is Unsubscribe || step is DeleteCommand
                || step is ReadFlag)
        }),
{
}

/// Where the choice of hours cannot be sent, what was begun is kept under a link, and the
/// group is shown the link, in words for the reason.
pub proof fn lemma_refused_recap_goes_on(recap: PrivateRecap, user_id: i64)
    requires
        asked_by(recap.from, user_id),
        recap.store_available,
        recap.keyboard is Got,
        recap.direct is Refused,
    ensures
        ({
            let step = recap_subscription::private_step(recap);
            let domain = StartContextDomain::PrivateSubscription;
            let token = keys::start_token(domain, recap.chat_id as int);
            let told = step is ReplyAndTrack && step->ReplyAndTrack_0 == user_id;
            match recap.context {
                Reply::Pending => step is StoreStartContext && step->StoreStartContext_0 == domain
                    && step->StoreStartContext_1 == token && leads_to(
                    step->StoreStartContext_2,
                    recap.chat_id,
                    recap.chat_title@,
                ),
                Reply::Failed => step is Reply,
                Reply::Got(_) => if never_talked(recap.direct) {
                    told && guides(
                        step,
                        "抱歉，在给您发送引导您创建聊天回顾的消息时出现了问题，这似乎是因为您<b>从未</b>和本 Bot（@"@,
                        recap.bot_username@,
                        token,
                    )
                } else if has_blocked(recap.direct) {
                    told && guides(
                        step,
                        "抱歉，在给您发送引导您创建聊天回顾的消息时出现了问题，这似乎是因为您已将本 Bot（@"@,
                        recap.bot_username@,
                        token,
                    )
                } else {
                    step is Done
                },
            }
        }),
{
    let token = keys::start_token(StartContextDomain::PrivateSubscription, recap.chat_id as int);
    let bot = recap.bot_username@;
    let first = "抱歉，在给您发送引导您创建聊天回顾的消息时出现了问题，这似乎是因为您<b>从未</b>和本 Bot（@"@;
    let second = "抱歉，在给您发送引导您创建聊天回顾的消息时出现了问题，这似乎是因为您已将本 Bot（@"@;
    let a = "） <b>发起过对话</b>导致的。\n\n由于当前群组的聊天回顾功能已经被<b>群组创建者</b>设定为<b>私聊订阅模式</b>，Bot 需要通过私聊的方式向您发送引导您创建聊天回顾的消息，届时，您需要完成以下任一一个操作后方可继续创建聊天回顾：\n1. <b>点击链接</b> https://t.me/"@;
    let b = " 与 Bot 开始对话就能继续原先的 /recap 命令操作；\n2. 点击 Bot 头像并且开始对话，然后在群组内重新发送 /recap 命令来创建聊天回顾。"@;
    let c = "）<b>停用</b>或是添加到了<b>黑名单</b>中导致的。\n\n由于当前群组的聊天回顾功能已经被<b>群组创建者</b>设定为<b>私聊订阅模式</b>，Bot 需要通过私聊的方式向您发送引导您创建聊天回顾的消息，届时，您需要根据下面的提示进行操作：\n1. 将 Bot 从<b>黑名单中移除</b>；\n2. <b>点击链接</b> https://t.me/"@;
    let d = " 继续创建聊天回顾，或是在群组内重新发送 /recap 命令来创建聊天回顾。"@;
    lemma_guidance(first, bot, a, token, b);
    lemma_guidance(second, bot, c, token, d);
}

// ---------------------------------------------------------------------------
// Links
// ---------------------------------------------------------------------------

/// A link to a recap in private asks for the hours of the chat that it was made for.
pub proof fn lemma_link_asks_for_its_chat(
    continuation: Continuation,
    context: payloads::PrivateSubscriptionStartContext,
)
    requires
        !continuation.arguments@.contains(' '),
        continuation.store_available,
        continuation.private_context == Reply::Got(Some(context)),
    ensures
        ({
            let step = recap_subscription::continuation_step(continuation);
            let keyboard = keyboards::hour_keyboard(context.chat_id, context.chat_title@, 1);
            match continuation.keyboard {
                Reply::Pending => step == ContinuationModel::StoreKeyboard(keyboard),
                Reply::Failed => step is Reply,
                Reply::Got(_) => {
                    &&& step is AskHours
                    &&& step->AskHours_2 == keyboard
                    &&& step->AskHours_1 == "您正在请求为群组 <b>"@ + harmless(context.chat_title@)
                        + "</b> 创建聊天回顾。\n请问您要为过去几个小时内的聊天创建回顾呢？"@
                    &&& step->AskHours_0 is Some ==> continuation.from is Some
                        && continuation.from->0.id == step->AskHours_0->0
                    &&& continuation.from is Some && continuation.from->0.id <= i64::MAX
                        ==> step->AskHours_0 is Some
                },
            }
        }),
{
}

/// A link to a subscription subscribes the one who follows it to the chat that it was made
/// for; a recap in private comes first.
pub proof fn lemma_link_subscribes_to_its_chat(
    continuation: Continuation,
    context: payloads::PrivateSubscriptionStartContext,
    user_id: i64,
)
    requires
        !continuation.arguments@.contains(' '),
        continuation.store_available,
        continuation.private_context is Failed || continuation.private_context == Reply::Got(
            None::<payloads::PrivateSubscriptionStartContext>,
        ),
        asked_by(continuation.from, user_id),
    ensures
        ({
            let step = recap_subscription::continuation_step(continuation);
            &&& continuation.subscription_context is Pending ==> step
                == ContinuationModel::ReadContext(StartContextDomain::SubscribeRecap)
            &&& continuation.subscription_context == Reply::Got(Some(context)) ==> match continuation.stored {
                Reply::Pending => step == ContinuationModel::Subscribe(context.chat_id, user_id),
                Reply::Failed => step is Reply,
                Reply::Got(_) => step is Say && step->Say_0 == user_id && step->Say_1
                    == "您已成功订阅群组 <b>"@ + harmless(context.chat_title@) + "</b> 的定时聊天回顾！"@,
            }
        }),
{
}

/// A start command without a token that is known is left to the ordinary greeting.
pub proof fn lemma_other_starts_are_ordinary(continuation: Continuation)
    ensures
        ({
            let step = recap_subscription::continuation_step(continuation);
            &&& continuation.arguments@.contains(' ') || !continuation.store_available
                ==> step is NotHandled
            &&& !continuation.arguments@.contains(' ') && continuation.store_available
                && continuation.private_context is Pending ==> step
                == ContinuationModel::ReadContext(StartContextDomain::PrivateSubscription)
            &&& step is Subscribe ==> asked_by(continuation.from, step->Subscribe_1)
        }),
{
}

// ---------------------------------------------------------------------------
// What stays of a keyboard
// ---------------------------------------------------------------------------

/// Whether a button of a row is the pressed one: the first that carries what was pressed.
pub open spec fn is_pressed(row: Seq<Option<Seq<char>>>, clicked: Seq<char>, i: int) -> bool {
    row[i] == Some(clicked) && forall|k: int| 0 <= k < i ==> row[k] != Some(clicked)
}

/// Every button of a row stays but the pressed one.
pub proof fn lemma_other_buttons_stay(row: Seq<Option<Seq<char>>>, clicked: Seq<char>, i: int)
    requires
        0 <= i < row.len(),
        row.len() <= usize::MAX,
    ensures
        recap_subscription::staying(row, clicked, 0).contains(i as usize) <==> !is_pressed(
            row,
            clicked,
            i,
        ),
{
    lemma_pressed(row, clicked, 0);
    lemma_staying(row, clicked, 0, i);
}

proof fn lemma_pressed(row: Seq<Option<Seq<char>>>, clicked: Seq<char>, i: int)
    requires
        0 <= i <= row.len(),
    ensures
        ({
            let found = recap_subscription::pressed_at(row, clicked, i);
            &&& i <= found <= row.len()
            &&& found < row.len() ==> row[found] == Some(clicked)
            &&& forall|k: int| i <= k < found ==> row[k] != Some(clicked)
        }),
    decreases row.len() - i,
{
    if i < row.len() && row[i] != Some(clicked) {
        lemma_pressed(row, clicked, i + 1);
    }
}

proof fn lemma_staying(row: Seq<Option<Seq<char>>>, clicked: Seq<char>, from: int, i: int)
    requires
        0 <= from <= row.len() <= usize::MAX,
        0 <= i < row.len(),
    ensures
        recap_subscription::staying(row, clicked, from).contains(i as usize) <==> from <= i && i
            != recap_subscription::pressed_at(row, clicked, 0),
    decreases row.len() - from,
{
    if from < row.len() {
        lemma_staying(row, clicked, from + 1, i);
        let rest = recap_subscription::staying(row, clicked, from + 1);
        let all = recap_subscription::staying(row, clicked, from);
        if from != recap_subscription::pressed_at(row, clicked, 0) {
            assert(all =~= seq![from as usize] + rest);
            assert(all[0] == from as usize);
            if rest.contains(i as usize) {
                let k = choose|k: int| 0 <= k < rest.len() && rest[k] == i as usize;
                assert(all[k + 1] == i as usize);
            }
            if all.contains(i as usize) && i != from {
                let k = choose|k: int| 0 <= k < all.len() && all[k] == i as usize;
                assert(rest[k - 1] == i as usize);
            }
        }
    }
}

} // verus!
