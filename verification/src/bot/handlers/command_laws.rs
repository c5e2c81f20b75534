//! What holds of commands and presses: what has to be so before a command is met, whom it
//! is met for, where a press leads, and what is recorded.

use vstd::prelude::*;

use crate::bot::handlers::recap::{self, CallbackHandler};
use crate::bot::commands::{self, CommandModel};
use crate::bot::handlers::recap_configure::{self, PressState, PressedButton};
use crate::bot::handlers::recap_forwarded::{self, ForwardedModel, ForwardedRecap};
use crate::bot::handlers::recap_manual;
use crate::bot::handlers::system::{
    self, CancelModel, Cancellation, FirstEntity, HelpTexts, StartStep,
};
use crate::bot::middleware::{self, RecordStep, Recording};
use crate::bot::payloads;
use crate::bot::users::{self, TelegramUser};
use crate::config::Locale;
use crate::numeral;
use crate::redis::keys;
use crate::reply::Reply;
use crate::services::autorecap::CondensedOutcome;
use crate::services::heading_laws;
use crate::services::message_capture::CapturedMessage;
use crate::services::recap_generation::{
    PrivateForwardedDetailedRecap, PrivateForwardedReplayChatHistory,
};
use crate::services::rich_recap::{self, SummaryInputs};
use crate::services::rich_split;
use crate::services::telegram_rich_message;
use crate::text;

verus! {

// ---------------------------------------------------------------------------
// Forwarded messages
// ---------------------------------------------------------------------------

/// Whether a command for a recap of forwarded messages has come as far as its messages.
pub open spec fn may_read(recap: ForwardedRecap, user_id: i64) -> bool {
    &&& recap.in_private
    &&& recap.from is Some
    &&& recap.from->0.id == user_id
    &&& recap.waiting_sent
    &&& recap.store_available
}

/// Whether five messages or more were received.
pub open spec fn received(recap: ForwardedRecap, user_id: i64) -> bool {
    &&& may_read(recap, user_id)
    &&& recap.histories is Got
    &&& recap.histories->Got_0@.len() >= 5
}

/// Whether the detailed recap of forwarded messages holds something.
pub open spec fn retold(recap: ForwardedRecap, user_id: i64) -> bool {
    &&& received(recap, user_id)
    &&& recap.generation_ready
    &&& recap.detailed is Got
    &&& recap_manual::filled(recap.detailed->Got_0.summaries@, 0).len() > 0
}

/// Forwarded messages are worked through in order, in private alone, for the one who sent
/// the command; five of them are needed.
pub proof fn lemma_forwarded_goes_on_in_order(recap: ForwardedRecap, user_id: i64)
    ensures
        ({
            let step = recap_forwarded::forwarded_step(recap);
            &&& step == ForwardedModel::SendWaiting(user_id) <==> recap.in_private
                && recap.from is Some && recap.from->0.id == user_id && !recap.waiting_sent
            &&& step == ForwardedModel::ReadBatch(user_id) <==> may_read(recap, user_id)
                && recap.histories is Pending
            &&& step == ForwardedModel::Summarize(user_id) <==> received(recap, user_id)
                && recap.generation_ready && recap.detailed is Pending
            &&& retold(recap, user_id) ==> (step is Condense <==> recap.condensed is None)
            &&& retold(recap, user_id) ==> (step is Deliver <==> recap.condensed is Some
                && recap.delivered is Pending)
            &&& retold(recap, user_id) ==> (step is DeleteWaiting <==> recap.condensed is Some
                && !(recap.delivered is Pending) && !recap.waiting_deleted)
            &&& may_read(recap, user_id) && recap.histories is Got
                && recap.histories->Got_0@.len() < 5 ==> step == ForwardedModel::Say(
                "目前收到的聊天记录不足 5 条哦，要再多发送给我一些之后之后再试试吗？"@,
                true,
            )
            &&& !recap.in_private ==> step == ForwardedModel::Say(
                "该命令当前只能在私聊中使用哦！"@,
                false,
            )
        }),
{
}

/// The recap goes to the chat of the command, in reply to it, and what ends it says whether
/// it could be sent.
pub proof fn lemma_forwarded_goes_back(recap: ForwardedRecap, user_id: i64)
    requires
        retold(recap, user_id),
        recap.condensed is Some,
    ensures
        ({
            let step = recap_forwarded::forwarded_step(recap);
            &&& step is Deliver ==> step->Deliver_0.chat_id == recap.chat_id
                && step->Deliver_0.reply_to_message_id == recap.message_id
                && !step->Deliver_0.disable_notification
                && step->Deliver_0.allow_sending_without_reply
            &&& step is Deliver ==> step->Deliver_1 == recap_forwarded::forwarded_messages(
                recap.from->0,
                user_id,
                recap.detailed->Got_0,
                recap.condensed->0,
            )
            &&& recap.waiting_deleted && recap.delivered is Failed ==> step == ForwardedModel::Say(
                "聊天记录回顾发送失败，请稍后再试！"@,
                true,
            )
            &&& recap.waiting_deleted && recap.delivered is Got ==> step is Say && step->Say_1
                && step->Say_0 != "聊天记录回顾发送失败，请稍后再试！"@
        }),
{
    reveal_strlit("聊天记录回顾发送失败，请稍后再试！");
    reveal_strlit("总结完成，如果你觉得不满意，可以再次发送 /recap_forwarded 重新生成哦！如果觉得满意，并且希望进行其他的总结操作，可以在开始前发送 /cancel 来清空当前已经接收到的消息，如果不进行操作，缓存的消息将会在 2 小时后被自动清理。");
    assert("聊天记录回顾发送失败，请稍后再试！"@[0] == '聊');
    assert(recap_forwarded::COMPLETION_MESSAGE@[0] == '总');
}

/// The recap of forwarded messages is headed as such and says who asked for it, without
/// hours.
pub proof fn lemma_forwarded_says_whose_it_is(
    from: TelegramUser,
    user_id: i64,
    detailed: PrivateForwardedDetailedRecap,
    outcome: CondensedOutcome,
)
    requires
        !text::is_blank(users::shown_name(from)),
    ensures
        exists|opened: Seq<char>|
            {
                &&& recap_forwarded::forwarded_messages(from, user_id, detailed, outcome)
                    == #[trigger] rich_split::composed(
                    opened,
                    recap_manual::filled(detailed.summaries@, 0),
                )
                &&& text::occurs(
                    opened,
                    "_由用戶 "@ + heading_laws::mention_of(users::shown_name(from), user_id as int)
                        + " 發起_"@,
                )
            },
{
    let summaries = recap_manual::filled(detailed.summaries@, 0);
    let inputs = SummaryInputs {
        title: recap_forwarded::FORWARDED_TITLE@,
        initiator_name: users::shown_name(from),
        initiator_user_id: user_id,
        condensed_summary: crate::services::autorecap::shown_condensed(
            outcome,
            summaries,
            recap_forwarded::DEFAULT_CONDENSED@,
        ),
        condensed_trace: Some(crate::services::autorecap::condensed_trace_of(outcome)),
        recap_trace: Some(detailed.trace@),
        ..rich_recap::no_inputs()
    };
    heading_laws::lemma_says_who_asked(inputs);
    let opened = rich_recap::visible_prefix(inputs);
    assert(recap_forwarded::forwarded_messages(from, user_id, detailed, outcome)
        == rich_split::composed(opened, summaries));
}

/// What a forwarded message comes to in what is condensed.
pub open spec fn told_by(history: PrivateForwardedReplayChatHistory) -> Seq<char> {
    (if history.actor_display_name@.len() > 0 {
        history.actor_display_name@
    } else {
        history.actor_username@
    }) + ": "@ + history.text@ + "\n"@
}

/// What is condensed has every forwarded message, in order: one more message comes at the
/// end and changes nothing before it.
pub proof fn lemma_source_has_every_message(
    histories: Seq<PrivateForwardedReplayChatHistory>,
    more: PrivateForwardedReplayChatHistory,
)
    ensures
        recap_forwarded::source_from(histories.push(more), 0) == recap_forwarded::source_from(
            histories,
            0,
        ) + told_by(more),
        recap_forwarded::source_from(Seq::empty(), 0).len() == 0,
{
    lemma_source_from(histories, more, 0);
}

proof fn lemma_source_from(
    histories: Seq<PrivateForwardedReplayChatHistory>,
    more: PrivateForwardedReplayChatHistory,
    i: int,
)
    requires
        0 <= i <= histories.len(),
    ensures
        recap_forwarded::source_from(histories.push(more), i) == recap_forwarded::source_from(
            histories,
            i,
        ) + told_by(more),
    decreases histories.len() - i,
{
    let longer = histories.push(more);
    if i < histories.len() {
        assert(longer[i] == histories[i]);
        lemma_source_from(histories, more, i + 1);
    } else {
        assert(longer[i] == more);
        assert(recap_forwarded::source_from(longer, i + 1) =~= Seq::<char>::empty());
        assert(recap_forwarded::source_from(histories, i) =~= Seq::<char>::empty());
    }
    assert(recap_forwarded::source_from(longer, i) =~= recap_forwarded::source_from(histories, i)
        + told_by(more));
}

// ---------------------------------------------------------------------------
// Commands that are left alone
// ---------------------------------------------------------------------------

/// Only the command that a message begins with counts, and it is read without its slash.
pub proof fn lemma_written_command(entity: FirstEntity, name: Seq<char>)
    requires
        entity.text@ == "/"@ + name,
    ensures
        system::written_command(Some(entity)) == if entity.is_bot_command && entity.start == 0 {
            Some(name)
        } else {
            None
        },
        system::written_command(None) is None,
{
    reveal_strlit("/");
    assert(entity.text@.skip(1) =~= name);
    assert("/"@.is_prefix_of(entity.text@)) by {
        assert(entity.text@.subrange(0, 1) =~= "/"@);
    }
}

/// A command is left alone only in a group that the bot administers, and not where it
/// names the bot.
pub proof fn lemma_commands_left_alone(
    is_administrator: bool,
    in_group: bool,
    command: Seq<char>,
    named: Seq<Seq<char>>,
    i: int,
)
    requires
        0 <= i < named.len(),
    ensures
        !is_administrator || !in_group ==> !system::suppressed(
            is_administrator,
            in_group,
            Some(command),
            named,
        ),
        command == named[i] ==> !system::suppressed(
            is_administrator,
            in_group,
            Some(command),
            named,
        ),
        is_administrator && in_group && (forall|k: int|
            0 <= k < named.len() ==> named[k] != command) ==> system::suppressed(
            is_administrator,
            in_group,
            Some(command),
            named,
        ),
        is_administrator && in_group ==> system::suppressed(true, true, None, named),
{
}

/// A command to help is met unless it is to be left alone; a command to start that stands
/// for something is not met with help.
pub proof fn lemma_help_and_start(
    suppressed: Reply<bool>,
    continued: Reply<bool>,
    help_suppressed: Reply<bool>,
)
    ensures
        system::help_step(suppressed) == StartStep::SendHelp <==> suppressed is Failed || suppressed
            == Reply::Got(false),
        system::help_step(suppressed) == StartStep::CheckHelpGate <==> suppressed is Pending,
        ({
            let step = system::start_step(suppressed, continued, help_suppressed);
            let goes_on = suppressed is Failed || suppressed == Reply::Got(false);
            &&& step == StartStep::CheckStartGate <==> suppressed is Pending
            &&& step == StartStep::Continue <==> goes_on && continued is Pending
            &&& step == StartStep::SendHelp <==> goes_on && continued == Reply::Got(false) && (
            help_suppressed is Failed || help_suppressed == Reply::Got(false))
            &&& step == StartStep::CheckHelpGate <==> goes_on && continued == Reply::Got(false)
                && help_suppressed is Pending
        }),
{
}

/// A reply is in the language of its sender where it is one of the three, and else in the
/// one that is configured.
pub proof fn lemma_language_of_a_reply(code: Seq<char>, configured: Locale)
    ensures
        code == "en"@ ==> system::reply_locale(Some(code), configured) == Locale::En,
        code == "zh-Hans"@ ==> system::reply_locale(Some(code), configured) == Locale::ZhHans,
        code == "zh-Hant"@ ==> system::reply_locale(Some(code), configured) == Locale::ZhHant,
        code != "en"@ && code != "zh-Hans"@ && code != "zh-Hant"@ ==> system::reply_locale(
            Some(code),
            configured,
        ) == configured,
        system::reply_locale(None, configured) == configured,
{
    crate::config::lemma_locale_code(Locale::En);
    crate::config::lemma_locale_code(Locale::ZhHans);
    crate::config::lemma_locale_code(Locale::ZhHant);
}

/// What was begun is cancelled for the one who asks, and they are told whether there was
/// anything.
pub proof fn lemma_cancels_for_who_asked(cancellation: Cancellation, user_id: i64)
    ensures
        ({
            let step = system::cancel_step(cancellation);
            let may = (cancellation.suppressed is Failed || cancellation.suppressed == Reply::Got(
                false,
            )) && cancellation.user_id == Some(user_id) && cancellation.store_available;
            &&& step is CheckGate <==> cancellation.suppressed is Pending
            &&& step == CancelModel::Cancel(user_id) <==> may && cancellation.cancelled is Pending
            &&& may && cancellation.cancelled == Reply::Got(true) ==> step is Say && step->Say_1
            &&& may && cancellation.cancelled == Reply::Got(false)
                && !(cancellation.suppressed is Failed) ==> step is SayLocalized
            &&& step is SayLocalized ==> cancellation.cancelled == Reply::Got(false)
            &&& step is Say && step->Say_1 ==> cancellation.cancelled == Reply::Got(true)
        }),
{
}

/// The help lists every command under the name of the bot, with what it is for.
pub proof fn lemma_help_lists_every_command(texts: HelpTexts, bot: Seq<char>, i: int)
    ensures
        0 <= i < 6 ==> text::occurs(
            system::help_commands(texts, bot),
            "/"@ + seq![
                "recap"@,
                "configure_recap"@,
                "recap_forwarded_start"@,
                "recap_forwarded"@,
                "subscribe_recap"@,
                "unsubscribe_recap"@,
            ][i] + "@"@ + bot + " - "@,
        ),
        0 <= i < 3 ==> text::occurs(
            system::help_commands(texts, bot),
            "/"@ + seq!["help"@, "cancel"@, "start"@][i] + "@"@ + bot,
        ),
        0 <= i < 3 && seq![texts.help@, texts.cancel@, texts.start@][i].len() > 0 ==> text::occurs(
            system::help_commands(texts, bot),
            "/"@ + seq!["help"@, "cancel"@, "start"@][i] + "@"@ + bot + " - "@ + seq![
                texts.help@,
                texts.cancel@,
                texts.start@,
            ][i],
        ),
{
    let all = system::help_commands(texts, bot);
    let basic = system::basic_lines(texts, bot);
    let recaps = system::recap_lines(bot);
    let first = text::join_spec(basic, "\n"@);
    let second = text::join_spec(recaps, "\n"@);
    let block = system::help_block(texts.basic_name@, basic);
    let head = block.subrange(0, block.len() - first.len());
    assert(block =~= head + first);
    let name = "聊天回顾"@;
    reveal_strlit("聊天回顾");
    let title = "<b>"@ + recap_manual::attribute_escaped(name) + "</b>\n\n"@;
    let rest = "\n\n"@ + title + second;
    assert(system::help_block(name, recaps) =~= title + second);
    assert(all =~= head + first + rest);
    assert(all =~= (block + "\n\n"@ + title) + second + Seq::<char>::empty());
    if 0 <= i < 6 {
        text::lemma_join_holds(recaps, "\n"@, i);
        let shown = "/"@ + seq![
            "recap"@,
            "configure_recap"@,
            "recap_forwarded_start"@,
            "recap_forwarded"@,
            "subscribe_recap"@,
            "unsubscribe_recap"@,
        ][i] + "@"@ + bot + " - "@;
        lemma_help_lines_say(bot, i);
        lemma_begins_within(second, recaps[i], shown);
        text::lemma_occurs_within(block + "\n\n"@ + title, second, Seq::empty(), shown);
    }
    if 0 <= i < 3 {
        text::lemma_join_holds(basic, "\n"@, i);
        let shown = "/"@ + seq!["help"@, "cancel"@, "start"@][i] + "@"@ + bot;
        assert(basic[i].subrange(0, shown.len() as int) =~= shown);
        lemma_begins_within(first, basic[i], shown);
        text::lemma_occurs_within(head, first, rest, shown);
        let purpose = seq![texts.help@, texts.cancel@, texts.start@][i];
        if purpose.len() > 0 {
            let whole = shown + " - "@ + purpose;
            assert(basic[i].subrange(0, whole.len() as int) =~= whole);
            lemma_begins_within(first, basic[i], whole);
            text::lemma_occurs_within(head, first, rest, whole);
        }
    }
}

proof fn lemma_help_lines_say(bot: Seq<char>, i: int)
    requires
        0 <= i < 6,
    ensures
        ("/"@ + seq![
            "recap"@,
            "configure_recap"@,
            "recap_forwarded_start"@,
            "recap_forwarded"@,
            "subscribe_recap"@,
            "unsubscribe_recap"@,
        ][i] + "@"@ + bot + " - "@).is_prefix_of(system::recap_lines(bot)[i]),
{
    reveal_strlit("总结过去的聊天记录并生成回顾快报");
    reveal_strlit("使 Bot 接收在私聊中转发给 Bot 的消息，并在发送 /recap_forwarded 后开始总结");
    reveal_strlit("使 Bot 停止接收在私聊中转发给 Bot 的消息，对已经转发过的消息进行总结");
    reveal_strlit("订阅当前群组的定时聊天回顾");
    reveal_strlit("取消订阅当前群组的定时聊天回顾");
    reveal_strlit("配置聊天记录回顾（需要管理权限，<b>请在配置的时候尽量避免使用匿名用户身份或者其他群组的身份进行配置，可能会导致权限检查异常而配置失败。</b>）");
    assert("总结过去的聊天记录并生成回顾快报"@.len() > 0);
    assert("使 Bot 接收在私聊中转发给 Bot 的消息，并在发送 /recap_forwarded 后开始总结"@.len() > 0);
    assert("使 Bot 停止接收在私聊中转发给 Bot 的消息，对已经转发过的消息进行总结"@.len() > 0);
    assert("订阅当前群组的定时聊天回顾"@.len() > 0);
    assert("取消订阅当前群组的定时聊天回顾"@.len() > 0);
    assert("配置聊天记录回顾（需要管理权限，<b>请在配置的时候尽量避免使用匿名用户身份或者其他群组的身份进行配置，可能会导致权限检查异常而配置失败。</b>）"@.len() > 0);
    let line = system::recap_lines(bot)[i];
    let shown = "/"@ + seq![
        "recap"@,
        "configure_recap"@,
        "recap_forwarded_start"@,
        "recap_forwarded"@,
        "subscribe_recap"@,
        "unsubscribe_recap"@,
    ][i] + "@"@ + bot + " - "@;
    assert(line.subrange(0, shown.len() as int) =~= shown);
}

proof fn lemma_begins_within(whole: Seq<char>, line: Seq<char>, beginning: Seq<char>)
    requires
        text::occurs(whole, line),
        beginning.is_prefix_of(line),
    ensures
        text::occurs(whole, beginning),
{
    let at = choose|at: int| text::matches_at(whole, line, at);
    assert(whole.subrange(at, at + beginning.len()) =~= line.subrange(0, beginning.len() as int));
    assert(text::matches_at(whole, beginning, at));
}

// ---------------------------------------------------------------------------
// Presses
// ---------------------------------------------------------------------------

/// Every route has its own handler, and nothing else has one; the switches wait until the
/// bot knows itself.
pub proof fn lemma_routes_lead_to_their_handlers(route: Seq<char>)
    ensures
        route == "recap/select-hour"@ ==> recap::handler_of(route, true) == CallbackHandler::SelectHour,
        route == "recap/recap/feedback/react"@ ==> recap::handler_of(route, true) == CallbackHandler::RecapFeedback,
        route == "smr/summarization/feedback/react"@ ==> recap::handler_of(route, true) == CallbackHandler::SummarizationFeedback,
        route == "recap/unsubscribe_recap"@ ==> recap::handler_of(route, true) == CallbackHandler::Unsubscribe,
        route == "recap/configure/toggle"@ ==> recap::handler_of(route, true) == CallbackHandler::Toggle,
        route == "recap/configure/assign_mode"@ ==> recap::handler_of(route, true) == CallbackHandler::AssignMode,
        route == "recap/configure/auto_recap_rates_per_day"@ ==> recap::handler_of(route, true) == CallbackHandler::Rates,
        route == "recap/configure/pin"@ ==> recap::handler_of(route, true) == CallbackHandler::Pin,
        route == "recap/configure/complete"@ ==> recap::handler_of(route, true) == CallbackHandler::Complete,
        route == "recap/select-hour"@ ==> recap::handler_of(route, false) == CallbackHandler::SelectHour,
        route == "recap/recap/feedback/react"@ ==> recap::handler_of(route, false) == CallbackHandler::RecapFeedback,
        route == "smr/summarization/feedback/react"@ ==> recap::handler_of(route, false) == CallbackHandler::SummarizationFeedback,
        route == "recap/unsubscribe_recap"@ ==> recap::handler_of(route, false) == CallbackHandler::Unsubscribe,
        route == "recap/configure/complete"@ ==> recap::handler_of(route, false) == CallbackHandler::Complete,
        route == "recap/configure/toggle"@ ==> recap::handler_of(route, false) == CallbackHandler::Ignore,
        route == "recap/configure/assign_mode"@ ==> recap::handler_of(route, false) == CallbackHandler::Ignore,
        route == "recap/configure/auto_recap_rates_per_day"@ ==> recap::handler_of(route, false) == CallbackHandler::Ignore,
        route == "recap/configure/pin"@ ==> recap::handler_of(route, false) == CallbackHandler::Ignore,
        route != "recap/select-hour"@ && route != "recap/recap/feedback/react"@ && route != "smr/summarization/feedback/react"@ && route != "recap/unsubscribe_recap"@ && route != "recap/configure/toggle"@ && route != "recap/configure/assign_mode"@ && route != "recap/configure/auto_recap_rates_per_day"@ && route != "recap/configure/pin"@ && route != "recap/configure/complete"@ ==> recap::handler_of(route, true)
            == CallbackHandler::Invalid,
{
    reveal_strlit("recap/select-hour");
    reveal_strlit("recap/recap/feedback/react");
    reveal_strlit("smr/summarization/feedback/react");
    reveal_strlit("recap/unsubscribe_recap");
    reveal_strlit("recap/configure/toggle");
    reveal_strlit("recap/configure/assign_mode");
    reveal_strlit("recap/configure/auto_recap_rates_per_day");
    reveal_strlit("recap/configure/pin");
    reveal_strlit("recap/configure/complete");
    assert("recap/select-hour"@.len() == 17);
    assert("recap/recap/feedback/react"@.len() == 26);
    assert("smr/summarization/feedback/react"@.len() == 32);
    assert("recap/unsubscribe_recap"@.len() == 23);
    assert("recap/configure/toggle"@.len() == 22);
    assert("recap/configure/assign_mode"@.len() == 27);
    assert("recap/configure/auto_recap_rates_per_day"@.len() == 40);
    assert("recap/configure/pin"@.len() == 19);
    assert("recap/configure/complete"@.len() == 24);
}

/// What was found for a press is handed over as it is, to the handler of its route.
pub proof fn lemma_payload_is_handed_over(
    wire: Seq<char>,
    knows_itself: bool,
    found: Option<String>,
)
    requires
        recap::callback_step(wire, true, knows_itself, Reply::Pending) is LookUp,
    ensures
        ({
            let looked_up = recap::callback_step(wire, true, knows_itself, Reply::Pending);
            let step = recap::callback_step(wire, true, knows_itself, Reply::Got(found));
            let handler = recap::handler_of(looked_up->LookUp_0, knows_itself);
            &&& recap::callback_step(wire, false, knows_itself, Reply::Got(found)) is Ignore
            &&& recap::callback_step(wire, true, knows_itself, Reply::Failed) is Ignore
            &&& step is Handle ==> step->Handle_0 == handler
            &&& step is Handle && found is Some ==> step->Handle_1 == found->0@
            &&& step is Handle && found is None ==> step->Handle_1.len() == 0
        }),
{
}

// ---------------------------------------------------------------------------
// What is written
// ---------------------------------------------------------------------------

/// Every command has its own name, and only the command to start takes what follows.
pub proof fn lemma_names_of_commands(name: Seq<char>, arguments: Seq<char>)
    ensures
        name == "/start"@ ==> commands::named_command(name, arguments) == Some(
            CommandModel::Start(arguments),
        ),
        name == "/help"@ ==> commands::named_command(name, arguments) == Some(
            CommandModel::Help,
        ),
        name == "/cancel"@ ==> commands::named_command(name, arguments) == Some(
            CommandModel::Cancel,
        ),
        name == "/recap"@ ==> commands::named_command(name, arguments) == Some(
            CommandModel::Recap,
        ),
        name == "/configure_recap"@ ==> commands::named_command(name, arguments) == Some(
            CommandModel::ConfigureRecap,
        ),
        name == "/recap_forwarded_start"@ ==> commands::named_command(name, arguments) == Some(
            CommandModel::RecapForwardedStart,
        ),
        name == "/recap_forwarded"@ ==> commands::named_command(name, arguments) == Some(
            CommandModel::RecapForwarded,
        ),
        name == "/subscribe_recap"@ ==> commands::named_command(name, arguments) == Some(
            CommandModel::SubscribeRecap,
        ),
        name == "/unsubscribe_recap"@ ==> commands::named_command(name, arguments) == Some(
            CommandModel::UnsubscribeRecap,
        ),
        name != "/start"@ && name != "/help"@ && name != "/cancel"@ && name != "/recap"@ && name != "/configure_recap"@ && name != "/recap_forwarded_start"@ && name != "/recap_forwarded"@ && name != "/subscribe_recap"@ && name != "/unsubscribe_recap"@
            ==> commands::named_command(name, arguments) is None,
{
    reveal_strlit("/start");
    reveal_strlit("/help");
    reveal_strlit("/cancel");
    reveal_strlit("/recap");
    reveal_strlit("/configure_recap");
    reveal_strlit("/recap_forwarded_start");
    reveal_strlit("/recap_forwarded");
    reveal_strlit("/subscribe_recap");
    reveal_strlit("/unsubscribe_recap");
    assert("/start"@.len() == 6);
    assert("/help"@.len() == 5);
    assert("/cancel"@.len() == 7);
    assert("/recap"@.len() == 6);
    assert("/configure_recap"@.len() == 16);
    assert("/recap_forwarded_start"@.len() == 22);
    assert("/recap_forwarded"@.len() == 16);
    assert("/subscribe_recap"@.len() == 16);
    assert("/unsubscribe_recap"@.len() == 18);
    assert("/start"@[1] != "/recap"@[1]);
    assert("/configure_recap"@[1] == 'c');
    assert("/recap_forwarded"@[1] == 'r');
    assert("/subscribe_recap"@[1] == 's');
}

/// A command is read up to the first space, what follows is its argument, and it may name
/// the bot; one that names another bot is none.
pub proof fn lemma_commands_as_written(
    name: Seq<char>,
    arguments: Seq<char>,
    bot: Seq<char>,
    addressed: Seq<char>,
)
    requires
        !name.contains(' '),
        !name.contains('@'),
        !addressed.contains(' '),
        !addressed.contains('@'),
    ensures
        commands::parsed_command(name, bot) == commands::named_command(name, Seq::empty()),
        commands::parsed_command(name + " "@ + arguments, bot) == commands::named_command(
            name,
            arguments,
        ),
        commands::parsed_command(name + "@"@ + addressed + " "@ + arguments, bot)
            == if text::ascii_lower(addressed) == text::ascii_lower(bot) {
            commands::named_command(name, arguments)
        } else {
            None
        },
{
    reveal_strlit(" ");
    reveal_strlit("@");
    lemma_first_word(name, arguments);
    assert((name + "@"@ + addressed).contains(' ') ==> false) by {
        let word = name + "@"@ + addressed;
        if word.contains(' ') {
            let k = choose|k: int| 0 <= k < word.len() && word[k] == ' ';
            if k < name.len() {
                assert(name.contains(name[k]));
            } else if k > name.len() {
                assert(addressed.contains(addressed[k - name.len() - 1]));
            }
        }
    }
    lemma_first_word(name + "@"@ + addressed, arguments);
    assert forall|k: int| 0 <= k < name.len() implies name[k] != '@' by {
        assert(name.contains(name[k]));
    }
    assert forall|k: int| 0 <= k < addressed.len() implies addressed[k] != '@' by {
        assert(addressed.contains(addressed[k]));
    }
    text::lemma_unsplit(name, '@', 0, 0);
    assert(name.subrange(0, name.len() as int) =~= name);
    text::lemma_two_pieces(name, '@', addressed);
    assert(name + seq!['@'] + addressed =~= name + "@"@ + addressed);
}

proof fn lemma_first_word(word: Seq<char>, rest: Seq<char>)
    requires
        !word.contains(' '),
    ensures
        commands::first_word(word) == (word, Seq::<char>::empty()),
        commands::first_word(word + " "@ + rest) == (word, rest),
{
    reveal_strlit(" ");
    if text::occurs(word, " "@) {
        let k = choose|k: int| text::matches_at(word, " "@, k);
        assert(word.subrange(k, k + 1)[0] == ' ');
        assert(word.contains(word[k]));
    }
    let all = word + " "@ + rest;
    let at = word.len() as int;
    assert(all.subrange(at, at + 1) =~= " "@);
    assert(text::matches_at(all, " "@, at));
    assert forall|k: int| 0 <= k < at implies !text::matches_at(all, " "@, k) by {
        if text::matches_at(all, " "@, k) {
            assert(all.subrange(k, k + 1)[0] == ' ');
            assert(word.contains(word[k]));
        }
    }
    text::lemma_found(all, " "@, at);
    assert(all.take(at) =~= word);
    assert(all.skip(at + 1) =~= rest);
}

// ---------------------------------------------------------------------------
// Presses of the configuration
// ---------------------------------------------------------------------------

/// Whether a press is one that counts: by the owner of the keyboard, who runs the chat.
pub open spec fn counts(pressed: PressedButton, state: PressState) -> bool {
    (pressed.owner_id is None || pressed.owner_id == Some(pressed.user_id)) && state.privileged
        == Reply::Got(true)
}

/// A press of the configuration changes what it names, and the keyboard then shows what
/// has become of it; a press that does not count does nothing.
pub proof fn lemma_presses_go_on_in_order(pressed: PressedButton, state: PressState)
    ensures
        ({
            let step = recap_configure::press_step(pressed, state);
            let own = pressed.owner_id is None || pressed.owner_id == Some(pressed.user_id);
            let changed = counts(pressed, state) && state.applied is Got;
            &&& step is LookUpMember <==> own && state.privileged is Pending
            &&& step is Apply <==> counts(pressed, state) && state.applied is Pending
            &&& step is Apply ==> step->Apply_0 == recap_configure::change_of(pressed)
            &&& step is Read <==> changed && state.view is Pending
            &&& step is StoreKeyboard <==> changed && state.view is Got && state.stored is Pending
            &&& step is StoreKeyboard ==> step->StoreKeyboard_0
                == recap_configure::configure_keyboard(state.view->Got_0)
            &&& step is EditKeyboard <==> changed && state.view is Got && state.stored is Got
            &&& step is EditKeyboard ==> step->EditKeyboard_0
                == recap_configure::configure_keyboard(state.view->Got_0)
        }),
{
}

// ---------------------------------------------------------------------------
// What is recorded
// ---------------------------------------------------------------------------

/// A heading does nothing, and what is no button of the bot leads nowhere.
pub proof fn lemma_headings_and_strangers(
    wire: Seq<char>,
    knows_itself: bool,
    payload: Reply<Option<String>>,
)
    ensures
        (keys::decoded_wire(wire) is Some && (keys::decoded_wire(wire)->0).0 == keys::wire_hash(
            "nop"@,
        )) ==> recap::callback_step(wire, true, knows_itself, payload) is Ignore,
        keys::decoded_wire(wire) is None ==> recap::callback_step(
            wire,
            true,
            knows_itself,
            payload,
        ) is Invalid,
{
}

/// Messages of groups are captured where recaps are on; private ones go into the open
/// session of their sender; nothing else is recorded.
pub proof fn lemma_recorded_where_asked_for(recording: Recording, user_id: i64)
    ensures
        ({
            let step = middleware::record_step(recording);
            let in_group = recording.chat_kind@ == "group"@ || recording.chat_kind@
                == "supergroup"@;
            let in_private = recording.chat_kind@ == "private"@ && recording.sender == Some(user_id)
                && recording.store_available;
            &&& step == RecordStep::ReadFlag <==> in_group && recording.recap_enabled is Pending
            &&& step == RecordStep::Capture <==> in_group && recording.recap_enabled == Reply::Got(
                true,
            ) && recording.preprocessor_ready
            &&& step == (RecordStep::ReadSession { user_id }) <==> in_private
                && recording.session_open is Pending
            &&& step == (RecordStep::Append { user_id }) <==> in_private && recording.session_open
                == Reply::Got(true) && recording.preprocessor_ready
        }),
{
    reveal_strlit("group");
    reveal_strlit("supergroup");
    reveal_strlit("private");
    assert("group"@.len() == 5 && "supergroup"@.len() == 10 && "private"@.len() == 7);
}

/// A replayed message is told by the one that it was forwarded from, a person before a
/// chat, and else by its sender.
pub proof fn lemma_replayed_by_the_first_teller(message: CapturedMessage)
    ensures
        ({
            let actor = middleware::replay_actor(message);
            &&& message.forward_from is Some ==> actor.1 == message.forward_from->0.username@
            &&& message.forward_from is Some && message.forward_from->0.last_name@.len() == 0
                ==> actor.0 == message.forward_from->0.first_name@
            &&& message.forward_from is None && message.forward_from_chat is Some ==> actor.0
                == message.forward_from_chat->0.title@ && actor.1.len() == 0
            &&& message.forward_from is None && message.forward_from_chat is None ==> actor.1
                == message.from.username@
            &&& message.forward_from is None && message.forward_from_chat is None
                && message.from.last_name@.len() == 0 ==> actor.0 == message.from.first_name@
        }),
{
}

/// What is stored of a replayed message: its number, who told it under which name, what
/// it says and when.
pub proof fn lemma_replay_fields(
    message_id: int,
    shown: Seq<char>,
    username: Seq<char>,
    said: Seq<char>,
    chatted_at: int,
)
    ensures
        middleware::replay_json(message_id, (shown, username), said, chatted_at)
            == payloads::html_safe(
            "{\"message_id\":"@ + numeral::decimal(message_id) + ",\"actor_display_name\":"@
                + telegram_rich_message::json_string(shown) + ",\"actor_username\":"@
                + telegram_rich_message::json_string(username) + ",\"text\":"@
                + telegram_rich_message::json_string(said) + ",\"chatted_at\":"@
                + numeral::decimal(chatted_at) + "}"@,
        ),
{
}

} // verus!
