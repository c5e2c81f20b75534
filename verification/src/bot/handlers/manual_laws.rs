//! What holds of recaps on demand: what has to be so before the hours are asked for, what
//! is loaded, made and shown, where it goes, and what a reaction does.

use vstd::prelude::*;

use crate::bot::handlers::recap_manual::{
    self, ManualRecap, ReactionState, ReactionStepModel, RecapCommand, RecapStepModel,
};
use crate::bot::keyboards;
use crate::bot::payloads::SelectHourCallbackData;
use crate::bot::users::{self, TelegramUser};
use crate::db::models::{ReactionType, TelegramChatRecapsOptions};
use crate::db::recap_options;
use crate::numeral;
use crate::reply::Reply;
use crate::services::autorecap::{self, CondensedOutcome};
use crate::services::heading_laws;
use crate::services::recap_generation::GroupDetailedRecap;
use crate::services::rich_recap::{self, SummaryInputs};
use crate::services::rich_split;
use crate::text;

verus! {

// ---------------------------------------------------------------------------
// The command
// ---------------------------------------------------------------------------

/// Whether a command comes from a group with recaps switched on.
pub open spec fn granted(command: RecapCommand) -> bool {
    command.in_group && command.recap_enabled == Reply::Got(true)
}

/// Whether the options have recaps sent in private.
pub open spec fn in_private(options: Option<TelegramChatRecapsOptions>) -> bool {
    options is Some && options->0.auto_recap_send_mode == 1
}

/// A command is met in order: the switch, the options, the pause, the keyboard; where
/// recaps go to subscribers alone it is met in private.
pub proof fn lemma_command_goes_on_in_order(command: RecapCommand)
    ensures
        ({
            let step = recap_manual::command_step(command);
            let open = granted(command) && command.options is Got && !in_private(
                command.options->Got_0,
            ) && command.store_available;
            &&& step is ReadFlag <==> command.in_group && command.recap_enabled is Pending
            &&& step is ReadOptions <==> granted(command) && command.options is Pending
            &&& step is HandlePrivately <==> granted(command) && command.options is Got
                && in_private(command.options->Got_0)
            &&& step is CheckRate <==> open && command.rate is Pending
            &&& step is StoreKeyboard <==> open && command.rate is Got && command.rate->Got_0.allowed
                && command.keyboard is Pending
            &&& step is AskHours <==> open && command.rate is Got && command.rate->Got_0.allowed
                && command.keyboard is Got
            &&& !command.in_group ==> step == RecapStepModel::Reply(
                "只有在群组和超级群组内才可以创建聊天记录回顾哦！"@,
            )
        }),
{
}

/// The hours are asked for the chat that the command was given in, and what is stored
/// under the buttons is what is shown.
pub proof fn lemma_hours_are_for_the_chat(command: RecapCommand)
    ensures
        ({
            let step = recap_manual::command_step(command);
            let keyboard = keyboards::hour_keyboard(command.chat_id, command.chat_title@, 0);
            &&& step is StoreKeyboard ==> step->StoreKeyboard_0 == keyboard
            &&& step is AskHours ==> step->AskHours_0 == keyboard
        }),
{
}

/// The pause is the longer of the one that is configured and the one of the chat, and the
/// one who asks too early is told how long to wait: at least a minute.
pub proof fn lemma_pause_is_kept(command: RecapCommand)
    requires
        recap_manual::command_step(command) is CheckRate,
    ensures
        ({
            let pause = recap_manual::command_step(command)->CheckRate_0;
            let options = command.options->Got_0;
            &&& pause >= command.configured_seconds
            &&& options is Some ==> pause >= options->0.manual_recap_rate_per_seconds
            &&& pause == command.configured_seconds || (options is Some && pause
                == options->0.manual_recap_rate_per_seconds)
        }),
{
    recap_options::lemma_manual_rate_floor(command.options->Got_0, command.configured_seconds);
}

/// How long one has to wait, in minutes.
pub proof fn lemma_wait_in_minutes(per_seconds: i64, ttl_seconds: i64)
    ensures
        exists|minutes: int|
            {
                &&& minutes >= 1
                &&& ttl_seconds >= 60 ==> minutes * 60 <= ttl_seconds < (minutes + 1) * 60
                &&& ttl_seconds < 60 ==> minutes == 1
                &&& (" 分钟最多使用一次，请您耐心等待 "@ + #[trigger] numeral::decimal(minutes)
                    + " 分钟后再试，感谢您的理解和支持。"@).is_suffix_of(
                    recap_manual::limited(per_seconds, ttl_seconds),
                )
            },
{
    let minutes = recap_manual::wait_minutes(ttl_seconds);
    let end = " 分钟最多使用一次，请您耐心等待 "@ + numeral::decimal(minutes)
        + " 分钟后再试，感谢您的理解和支持。"@;
    let said = recap_manual::limited(per_seconds, ttl_seconds);
    assert(said.subrange(said.len() - end.len(), said.len() as int) =~= end);
}

// ---------------------------------------------------------------------------
// The recap
// ---------------------------------------------------------------------------

/// The messages of as many hours as were chosen are loaded, more than five are needed,
/// and the recap is of the type that the last message says.
pub proof fn lemma_chosen_hours_are_loaded(
    data: SelectHourCallbackData,
    recap: ManualRecap,
    canonical: Option<Seq<char>>,
)
    ensures
        ({
            let step = recap_manual::manual_step(data, recap, canonical);
            let enough = recap.waiting_edited && recap.histories is Got
                && recap.histories->Got_0@.len() >= 6;
            &&& step is EditWaiting <==> !recap.waiting_edited
            &&& step is LoadHistories <==> recap.waiting_edited && recap.histories is Pending
            &&& step is LoadHistories ==> step->LoadHistories_0 == data.hour
            &&& step is Summarize <==> enough && recap.generation_ready
                && recap.detailed is Pending
            &&& step is Summarize ==> step->Summarize_0
                == recap.histories->Got_0@[recap.histories->Got_0@.len() - 1].chat_type@
            &&& recap.waiting_edited && recap.histories is Got && !enough ==> step is Fail
                && ("最近 "@ + numeral::decimal(data.hour as int)).is_prefix_of(step->Fail_0)
            &&& step is EditWaiting ==> text::occurs(
                step->EditWaiting_0,
                numeral::decimal(data.hour as int),
            )
        }),
{
    let number = numeral::decimal(data.hour as int);
    let step = recap_manual::manual_step(data, recap, canonical);
    let few = recap_manual::too_few(data.hour as int, data.recap_mode);
    assert(few.subrange(0, ("最近 "@ + number).len() as int) =~= "最近 "@ + number);
    let shown = recap_manual::in_progress(data);
    let end = " 個小時的聊天記錄生成回顧，請稍等..."@;
    let at = shown.len() - end.len() - number.len();
    assert(shown.subrange(at, at + number.len()) =~= number);
    assert(text::matches_at(shown, number, at));
}

/// Whether a recap has come as far as its reactions.
pub open spec fn summarized(recap: ManualRecap, canonical: Option<Seq<char>>) -> bool {
    &&& recap.waiting_edited
    &&& recap.histories is Got
    &&& recap.histories->Got_0@.len() >= 6
    &&& recap.generation_ready
    &&& recap.detailed is Got
    &&& canonical is Some
    &&& recap_manual::filled(recap.detailed->Got_0.summaries@, 0).len() > 0
}

/// A recap goes on in order: its reactions are counted, its keyboard is stored, the
/// condensed recap is made, and all is delivered.
pub proof fn lemma_recap_goes_on_in_order(
    data: SelectHourCallbackData,
    recap: ManualRecap,
    canonical: Option<Seq<char>>,
)
    requires
        summarized(recap, canonical),
    ensures
        ({
            let step = recap_manual::manual_step(data, recap, canonical);
            let counted = recap.counts is Got && recap.store_available;
            let detailed = recap.detailed->Got_0;
            let keyboard = keyboards::vote_keyboard(
                data.chat_id,
                detailed.log_id@,
                recap.counts->Got_0,
            );
            &&& step is CountReactions <==> recap.counts is Pending
            &&& step is CountReactions ==> step->CountReactions_0 == canonical->0
            &&& step is StoreKeyboard <==> counted && recap.keyboard is Pending
            &&& step is StoreKeyboard ==> step->StoreKeyboard_0 == keyboard
            &&& step is Condense <==> counted && recap.keyboard is Got && recap.condensed is None
            &&& step is Deliver ==> counted && recap.keyboard is Got && recap.condensed is Some
                && recap.delivered is Pending
            &&& step is Deliver ==> step->Deliver_2 == keyboard && step->Deliver_1.len() > 0
                && step->Deliver_1 == recap_manual::manual_messages(
                data,
                recap,
                recap.histories->Got_0@[recap.histories->Got_0@.len() - 1].chat_type@,
                detailed,
                recap.condensed->0,
            )
            &&& step is DeleteWaiting ==> !recap.waiting_deleted && !(recap.delivered is Pending)
            &&& step is Done ==> recap.delivered is Got && recap.waiting_deleted
            &&& recap.waiting_deleted && recap.delivered is Failed && counted
                && recap.keyboard is Got && recap.condensed is Some ==> step is Fail
        }),
{
}

/// A recap goes to where the hours were chosen, as a reply to the message there, with a
/// sound, and also where that message is gone.
pub proof fn lemma_recap_goes_where_it_was_asked_for(
    data: SelectHourCallbackData,
    recap: ManualRecap,
    canonical: Option<Seq<char>>,
)
    requires
        recap_manual::manual_step(data, recap, canonical) is Deliver,
    ensures
        ({
            let settings = recap_manual::manual_step(data, recap, canonical)->Deliver_0;
            &&& settings.chat_id == recap.destination_chat_id
            &&& settings.reply_to_message_id == recap.reply_to_message_id
            &&& !settings.disable_notification
            &&& settings.allow_sending_without_reply
        }),
{
}

/// What opens a recap on demand: the chat, the hours and the one who chose them stand in
/// it, and the notice on links where the chat is a general group.
pub open spec fn opens(
    opened: Seq<char>,
    data: SelectHourCallbackData,
    actor: TelegramUser,
    chat_type: Seq<char>,
) -> bool {
    let title = text::trimmed(data.chat_title@);
    &&& title.len() > 0 && !"【"@.is_prefix_of(title) ==> ("# 【"@ + rich_recap::escaped(title)
        + "】聊天回顧"@).is_prefix_of(opened)
    &&& data.hour > 0 && !text::is_blank(actor.first_name@) && 0 < actor.id <= i64::MAX
        ==> text::occurs(
        opened,
        "_用戶 "@ + heading_laws::mention_of(users::shown_name(actor), actor.id as int)
            + " 發起 **"@ + numeral::decimal(data.hour as int) + " 小時**總結_"@,
    )
    &&& chat_type == "group"@ ==> text::occurs(
        opened,
        "> 💡 一般群組來源暫時不顯示原訊息引用；升級為 supergroup 後即可建立連結。"@,
    )
}

/// A recap on demand is opened for the chat, the hours and the one who chose them, and has
/// the summaries that hold something.
pub proof fn lemma_recap_says_whose_it_is(
    data: SelectHourCallbackData,
    recap: ManualRecap,
    chat_type: Seq<char>,
    detailed: GroupDetailedRecap,
    outcome: CondensedOutcome,
)
    ensures
        exists|opened: Seq<char>|
            {
                &&& recap_manual::manual_messages(data, recap, chat_type, detailed, outcome)
                    == #[trigger] rich_split::composed(
                    opened,
                    recap_manual::filled(detailed.summaries@, 0),
                )
                &&& opens(opened, data, recap.actor, chat_type)
            },
{
    let summaries = recap_manual::filled(detailed.summaries@, 0);
    let inputs = SummaryInputs {
        title: recap_manual::group_name(data.chat_title@),
        hours: data.hour,
        automatic: false,
        initiator_name: users::shown_name(recap.actor),
        initiator_user_id: recap_manual::number_or_zero(recap.actor),
        condensed_summary: autorecap::shown_condensed(
            outcome,
            summaries,
            autorecap::default_condensed(data.hour as int),
        ),
        general_group_notice: chat_type == "group"@,
        subscription_chat_title: ""@,
        condensed_trace: Some(autorecap::condensed_trace_of(outcome)),
        recap_trace: Some(detailed.trace@),
    };
    let opened = rich_recap::visible_prefix(inputs);
    assert(recap_manual::manual_messages(data, recap, chat_type, detailed, outcome)
        == rich_split::composed(opened, summaries));
    text::lemma_trim_idempotent(data.chat_title@);
    heading_laws::lemma_headed_with_the_title(inputs);
    if !text::is_blank(recap.actor.first_name@) {
        lemma_named(recap.actor);
        heading_laws::lemma_says_who_asked(inputs);
    }
    if chat_type == "group"@ {
        let plain = SummaryInputs { general_group_notice: false, ..inputs };
        heading_laws::lemma_notice_on_general_groups(plain);
        assert(SummaryInputs { general_group_notice: true, ..plain } == inputs);
    }
    assert(opens(opened, data, recap.actor, chat_type));
}

proof fn lemma_named(user: TelegramUser)
    requires
        !text::is_blank(user.first_name@),
    ensures
        !text::is_blank(users::shown_name(user)),
{
    let both = user.first_name@ + " "@ + users::or_nothing(user.last_name);
    let (a, b) = text::lemma_trimmed_shape(user.first_name@);
    let (c, d) = text::lemma_trimmed_shape(both);
    assert(both[a] == user.first_name@[a]);
    text::lemma_trim_idempotent(both);
}

/// Every summary that holds something is kept, in its order.
pub proof fn lemma_filled_summaries_in_order(summaries: Seq<String>, more: String)
    ensures
        recap_manual::filled(summaries.push(more), 0) == if more@.len() == 0 {
            recap_manual::filled(summaries, 0)
        } else {
            recap_manual::filled(summaries, 0).push(more@)
        },
{
    lemma_filled_from(summaries, more, 0);
}

proof fn lemma_filled_from(summaries: Seq<String>, more: String, i: int)
    requires
        0 <= i <= summaries.len(),
    ensures
        recap_manual::filled(summaries.push(more), i) == if more@.len() == 0 {
            recap_manual::filled(summaries, i)
        } else {
            recap_manual::filled(summaries, i).push(more@)
        },
    decreases summaries.len() - i,
{
    let longer = summaries.push(more);
    if i < summaries.len() {
        assert(longer[i] == summaries[i]);
        lemma_filled_from(summaries, more, i + 1);
    } else {
        assert(longer[i] == more);
        assert(recap_manual::filled(longer, i + 1) =~= Seq::<Seq<char>>::empty());
    }
    if more@.len() == 0 {
        assert(recap_manual::filled(longer, i) =~= recap_manual::filled(summaries, i));
    } else {
        assert(recap_manual::filled(longer, i) =~= recap_manual::filled(summaries, i).push(more@));
    }
}

// ---------------------------------------------------------------------------
// Reactions
// ---------------------------------------------------------------------------

/// The reaction that is applied is the one of the button, to the log of the button, by
/// the one who pressed it.
pub proof fn lemma_reaction_is_the_one_pressed(
    canonical: Seq<char>,
    reaction_type: Seq<char>,
    user: TelegramUser,
)
    requires
        user.id <= i64::MAX,
    ensures
        ({
            let asked = recap_manual::reaction_asked(Some(canonical), reaction_type, user);
            &&& reaction_type == "up_vote"@ ==> asked == Some(
                (canonical, user.id as i64, ReactionType::UpVote),
            )
            &&& reaction_type == "down_vote"@ ==> asked == Some(
                (canonical, user.id as i64, ReactionType::DownVote),
            )
            &&& reaction_type == "lmao"@ ==> asked == Some(
                (canonical, user.id as i64, ReactionType::Lmao),
            )
            &&& !(reaction_type == "up_vote"@ || reaction_type == "down_vote"@ || reaction_type
                == "lmao"@) ==> asked is None
        }),
        recap_manual::reaction_asked(None, reaction_type, user) is None,
{
    reveal_strlit("up_vote");
    reveal_strlit("down_vote");
    reveal_strlit("lmao");
    reveal_strlit("none");
    assert("up_vote"@.len() == 7 && "down_vote"@.len() == 9);
    assert("lmao"@.len() == 4 && "none"@.len() == 4);
    assert("lmao"@[0] != "none"@[0]);
}

/// A reaction is applied, then counted, and the keyboard of its own log shows the counts.
pub proof fn lemma_reaction_goes_on_in_order(chat_id: i64, log_id: Seq<char>, state: ReactionState)
    ensures
        ({
            let step = recap_manual::feedback_step(chat_id, log_id, state);
            let counted = state.applied is Got && state.counts is Got && state.store_available;
            let keyboard = keyboards::vote_keyboard(chat_id, log_id, state.counts->Got_0);
            &&& step is React <==> state.applied is Pending
            &&& step is Count <==> state.applied is Got && state.counts is Pending
            &&& step is StoreKeyboard <==> counted && state.keyboard is Pending
            &&& step is StoreKeyboard ==> step == ReactionStepModel::StoreKeyboard(keyboard)
            &&& step is EditKeyboard <==> counted && state.keyboard is Got
            &&& step is EditKeyboard ==> step == ReactionStepModel::EditKeyboard(keyboard)
        }),
{
}

} // verus!
