//! What holds of automatic recaps: how often they come, how far they look back, and who
//! gets them.

use vstd::prelude::*;

use crate::bot::keyboards;
use crate::db::models::ReactionCounts;
use crate::numeral;
use crate::reply::Reply;
use crate::services::autorecap::{
    self, AutoRecapPreparation, AutoRecapReadState, AutoRecapRun, AutoRecapStepModel, AutoRecapStop,
    AutoRecapTarget, ChatKind, CondensedOutcome, DeliveryInputs,
};
use crate::services::autorecap_delivery::TargetModel;
use crate::services::autorecap_queue;
use crate::services::recap_generation::GroupDetailedRecap;
use crate::services::rich_recap::{self, SummaryInputs};
use crate::services::rich_split;
use crate::text;

verus! {

// ---------------------------------------------------------------------------
// Hours
// ---------------------------------------------------------------------------

/// How many recaps a day a chat with a stored rate gets.
pub open spec fn recaps_a_day(stored: int) -> int {
    if stored == 2 {
        2
    } else if stored == 3 {
        3
    } else {
        4
    }
}

proof fn lemma_rate(stored: i64)
    ensures
        autorecap_queue::effective_rate(autorecap_queue::narrow_rate(stored)) == recaps_a_day(
            stored as int,
        ),
        autorecap_queue::window_hours(autorecap_queue::narrow_rate(stored)) * recaps_a_day(
            stored as int,
        ) == 24,
{
}

/// The recaps of a day cover it: what one looks back, so many times a day, is the whole
/// day.
pub proof fn lemma_recaps_cover_the_day(run: AutoRecapRun, canonical: Option<Seq<char>>)
    ensures
        autorecap::auto_recap_step(run, canonical) matches AutoRecapStepModel::LoadHistories(hours)
            ==> hours * recaps_a_day(run.options.auto_recap_rates_per_day as int) == 24,
        run.chat_kind is Got && run.histories is Pending ==> autorecap::auto_recap_step(
            run,
            canonical,
        ) is LoadHistories,
{
    lemma_rate(run.options.auto_recap_rates_per_day);
}

/// How far a recap looks back depends on nothing but how often it comes.
pub proof fn lemma_hours_depend_on_the_rate_alone(
    a: AutoRecapRun,
    b: AutoRecapRun,
    canonical: Option<Seq<char>>,
)
    requires
        a.options.auto_recap_rates_per_day == b.options.auto_recap_rates_per_day,
    ensures
        match (
            autorecap::auto_recap_step(a, canonical),
            autorecap::auto_recap_step(b, canonical),
        ) {
            (AutoRecapStepModel::LoadHistories(x), AutoRecapStepModel::LoadHistories(y)) => x == y,
            _ => true,
        },
{
}

/// One slot follows another after exactly the hours that a recap looks back: between two
/// recaps of a chat no message is left out and none is recapped twice.
pub proof fn lemma_slots_meet(now_utc_ms: i64, timezone_shift_seconds: i64, stored: i64, due: i64)
    requires
        ({
            let rate = autorecap_queue::narrow_rate(stored);
            &&& due == autorecap_queue::next_due(now_utc_ms, timezone_shift_seconds, rate)
            &&& i64::MIN <= timezone_shift_seconds * 1_000 <= i64::MAX
            &&& i64::MIN <= now_utc_ms + timezone_shift_seconds * 1_000 <= i64::MAX
            &&& i64::MIN <= due + timezone_shift_seconds * 1_000 <= i64::MAX - 200_000_000
            &&& i64::MIN + 200_000_000 <= due <= i64::MAX - 200_000_000
        }),
    ensures
        ({
            let rate = autorecap_queue::narrow_rate(stored);
            let local = due + timezone_shift_seconds * 1_000;
            let hour = (local % 86_400_000) / 3_600_000;
            let n = recaps_a_day(stored as int);
            &&& now_utc_ms < due
            &&& (due - now_utc_ms) * n <= 86_400_000
            &&& local % 3_600_000 == 0
            &&& n == 2 ==> hour == 8 || hour == 20
            &&& n == 3 ==> hour == 0 || hour == 8 || hour == 16
            &&& n == 4 ==> hour == 2 || hour == 8 || hour == 14 || hour == 20
            &&& (autorecap_queue::next_due(due, timezone_shift_seconds, rate) - due) * n
                == 86_400_000
        }),
{
    let rate = autorecap_queue::narrow_rate(stored);
    let n = recaps_a_day(stored as int);
    lemma_rate(stored);
    let shift = timezone_shift_seconds * 1_000;
    lemma_local_due(now_utc_ms + shift, rate, n);
    let local = due + shift;
    assert(local == autorecap_queue::local_due(now_utc_ms + shift, rate));
    lemma_local_due(local, rate, n);
    lemma_slot_to_slot(local, rate, n);
}

spec fn on_schedule(local: int, n: int) -> bool {
    let hour = (local % 86_400_000) / 3_600_000;
    &&& local % 3_600_000 == 0
    &&& n == 2 ==> hour == 8 || hour == 20
    &&& n == 3 ==> hour == 0 || hour == 8 || hour == 16
    &&& n == 4 ==> hour == 2 || hour == 8 || hour == 14 || hour == 20
}

proof fn lemma_instant(day: int, hour: int)
    requires
        0 <= hour < 48,
    ensures
        (day * 86_400_000 + hour * 3_600_000) % 3_600_000 == 0,
        ((day * 86_400_000 + hour * 3_600_000) % 86_400_000) / 3_600_000 == if hour >= 24 {
            hour - 24
        } else {
            hour
        },
{
    let instant = day * 86_400_000 + hour * 3_600_000;
    let (days, rest) = if hour >= 24 {
        (day + 1, hour - 24)
    } else {
        (day, hour)
    };
    vstd::arithmetic::div_mod::lemma_fundamental_div_mod_converse(
        instant,
        86_400_000,
        days,
        rest * 3_600_000,
    );
    vstd::arithmetic::div_mod::lemma_fundamental_div_mod_converse(
        instant,
        3_600_000,
        day * 24 + hour,
        0,
    );
}

proof fn lemma_local_due(local: int, rate: i32, n: int)
    requires
        autorecap_queue::effective_rate(rate) == n,
        2 <= n <= 4,
    ensures
        on_schedule(autorecap_queue::local_due(local, rate), n),
        local < autorecap_queue::local_due(local, rate),
        (autorecap_queue::local_due(local, rate) - local) * n <= 86_400_000,
{
    reveal_with_fuel(autorecap_queue::slot_after, 5);
    let into = local % 86_400_000;
    let day = local / 86_400_000;
    let hour = into / 3_600_000;
    vstd::arithmetic::div_mod::lemma_fundamental_div_mod(local, 86_400_000);
    vstd::arithmetic::div_mod::lemma_fundamental_div_mod(into, 3_600_000);
    let due = autorecap_queue::local_due(local, rate);
    let slot = (due - day * 86_400_000) / 3_600_000;
    assert(due == day * 86_400_000 + slot * 3_600_000);
    lemma_instant(day, slot);
}

proof fn lemma_slot_to_slot(local: int, rate: i32, n: int)
    requires
        autorecap_queue::effective_rate(rate) == n,
        2 <= n <= 4,
        on_schedule(local, n),
    ensures
        (autorecap_queue::local_due(local, rate) - local) * n == 86_400_000,
{
    reveal_with_fuel(autorecap_queue::slot_after, 5);
    let into = local % 86_400_000;
    let day = local / 86_400_000;
    let hour = into / 3_600_000;
    vstd::arithmetic::div_mod::lemma_fundamental_div_mod(local, 86_400_000);
    vstd::arithmetic::div_mod::lemma_fundamental_div_mod(local, 3_600_000);
    vstd::arithmetic::div_mod::lemma_fundamental_div_mod(into, 3_600_000);
    assert(into == hour * 3_600_000) by {
        let rest = into % 3_600_000;
        assert(local == (day * 24 + hour) * 3_600_000 + rest);
        vstd::arithmetic::div_mod::lemma_fundamental_div_mod_converse(
            local,
            3_600_000,
            day * 24 + hour,
            rest,
        );
    }
}

/// The messages of an automatic recap say how many hours they cover: those that it
/// loaded.
pub proof fn lemma_messages_show_the_hours(
    run: AutoRecapRun,
    kind: ChatKind,
    title: Seq<char>,
    detailed: GroupDetailedRecap,
    outcome: CondensedOutcome,
    subscription_chat_title: Seq<char>,
    hours: int,
)
    requires
        hours * recaps_a_day(run.options.auto_recap_rates_per_day as int) == 24,
    ensures
        exists|prefix: Seq<char>|
            {
                &&& autorecap::run_messages(
                    run,
                    kind,
                    title,
                    detailed,
                    outcome,
                    subscription_chat_title,
                ) == #[trigger] rich_split::composed(prefix, text::texts(detailed.summaries@))
                &&& text::occurs(
                    prefix,
                    "_自動產生 **"@ + numeral::decimal(hours) + " 小時**總結_"@,
                )
                &&& text::occurs(prefix, rich_recap::heading(title))
                &&& !text::is_blank(subscription_chat_title) ==> text::occurs(
                    prefix,
                    "> 📬 這是您訂閱的 **"@ + rich_recap::escaped(subscription_chat_title)
                        + "** 群組定時聊天回顧。"@,
                )
            },
{
    lemma_rate(run.options.auto_recap_rates_per_day);
    assert(hours == autorecap::run_hours(run)) by (nonlinear_arith)
        requires
            hours * recaps_a_day(run.options.auto_recap_rates_per_day as int) == 24,
            autorecap::run_hours(run) * recaps_a_day(run.options.auto_recap_rates_per_day as int)
                == 24,
            2 <= recaps_a_day(run.options.auto_recap_rates_per_day as int) <= 4,
    ;
    let summaries = text::texts(detailed.summaries@);
    let inputs = SummaryInputs {
        title,
        hours: autorecap::run_hours(run),
        automatic: true,
        initiator_name: ""@,
        initiator_user_id: 0,
        condensed_summary: autorecap::shown_condensed(
            outcome,
            summaries,
            autorecap::default_condensed(autorecap::run_hours(run) as int),
        ),
        general_group_notice: kind == ChatKind::Group,
        subscription_chat_title,
        condensed_trace: Some(autorecap::condensed_trace_of(outcome)),
        recap_trace: Some(detailed.trace@),
    };
    let prefix = rich_recap::visible_prefix(inputs);
    let blocks = rich_recap::summary_blocks(
        inputs,
        rich_recap::styled(
            rich_recap::defused(rich_recap::displayed_summary(inputs.condensed_summary)),
            rich_recap::RecapStyle::Condensed,
        ),
    );
    assert(blocks[0] == rich_recap::heading(title));
    assert(blocks[1] == "_自動產生 **"@ + numeral::decimal(hours) + " 小時**總結_"@);
    text::lemma_join_holds(blocks, "\n\n"@, 0);
    text::lemma_join_holds(blocks, "\n\n"@, 1);
    if !text::is_blank(subscription_chat_title) {
        text::lemma_join_holds(blocks, "\n\n"@, 2);
    }
    assert(autorecap::run_messages(run, kind, title, detailed, outcome, subscription_chat_title)
        == rich_split::composed(prefix, summaries));
}

// ---------------------------------------------------------------------------
// Recipients
// ---------------------------------------------------------------------------

/// A public recap goes to the group first and then to every subscriber, a private one to
/// the subscribers alone, all in order.
pub proof fn lemma_targets(source: i64, send_mode: i64, subscribers: Seq<i64>, k: int)
    requires
        0 <= k < subscribers.len(),
    ensures
        ({
            let targets = autorecap::targets_of(source, send_mode, subscribers);
            let group: int = if send_mode == 0 {
                1
            } else {
                0
            };
            &&& targets.len() == group + subscribers.len()
            &&& send_mode == 0 ==> targets[0].chat_id == source && !targets[0].is_private_subscriber
            &&& targets[group + k].chat_id == subscribers[k]
            &&& targets[group + k].is_private_subscriber
        }),
{
}

/// How many of the first `k` subscribers have a keyboard.
pub open spec fn stored_before(stored: Seq<bool>, k: int) -> int
    decreases k,
{
    if k <= 0 {
        0
    } else {
        stored_before(stored, k - 1) + if stored[k - 1] {
            1int
        } else {
            0int
        }
    }
}

/// The group, where the recap is public, and each subscriber whose keyboard was stored get
/// the recap, each once and in order: the group with the buttons for its reactions, the
/// subscriber with one more to leave that names the chat and them, and only the group's is
/// pinned, where pinning is on.
pub proof fn lemma_everyone_gets_the_recap(
    run: AutoRecapRun,
    kind: ChatKind,
    title: Seq<char>,
    detailed: GroupDetailedRecap,
    counts: ReactionCounts,
    outcome: CondensedOutcome,
    k: int,
)
    requires
        0 <= k < run.subscribers@.len(),
        run.subscriber_keyboards@.len() == run.subscribers@.len(),
        autorecap::run_messages(run, kind, title, detailed, outcome, ""@).len() > 0,
        autorecap::run_messages(run, kind, title, detailed, outcome, title).len() > 0,
    ensures
        ({
            let sent = autorecap::run_deliveries(run, kind, title, detailed, counts, outcome);
            let group: int = if run.options.auto_recap_send_mode == 0 {
                1
            } else {
                0
            };
            let stored = run.subscriber_keyboards@;
            let at = group + stored_before(stored, k);
            &&& sent.len() == group + stored_before(stored, stored.len() as int)
            &&& group == 1 ==> {
                &&& sent[0].chat_id == run.chat_id
                &&& sent[0].pin_first == run.options.pin_auto_recap_message
                &&& sent[0].parts == autorecap::run_messages(
                    run,
                    kind,
                    title,
                    detailed,
                    outcome,
                    ""@,
                )
                &&& sent[0].keyboard == keyboards::vote_keyboard(
                    run.chat_id,
                    detailed.log_id@,
                    counts,
                )
            }
            &&& stored[k] ==> {
                &&& 0 <= at < sent.len()
                &&& sent[at].chat_id == run.subscribers@[k].user_id
                &&& !sent[at].pin_first
                &&& sent[at].parts == autorecap::run_messages(
                    run,
                    kind,
                    title,
                    detailed,
                    outcome,
                    title,
                )
                &&& sent[at].keyboard == keyboards::subscriber_keyboard(
                    run.chat_id,
                    title,
                    run.subscribers@[k].user_id,
                    detailed.log_id@,
                    counts,
                )
            }
        }),
{
    let stored = run.subscriber_keyboards@;
    let ids = autorecap::subscriber_ids(run.subscribers@);
    let targets = autorecap::targets_of(run.chat_id, run.options.auto_recap_send_mode, ids);
    let inputs = DeliveryInputs {
        chat_id: run.chat_id,
        title,
        log_id: detailed.log_id@,
        counts,
        public_parts: if run.options.auto_recap_send_mode == 0 {
            autorecap::run_messages(run, kind, title, detailed, outcome, ""@)
        } else {
            Seq::empty()
        },
        subscriber_parts: if run.subscribers@.len() > 0 {
            autorecap::run_messages(run, kind, title, detailed, outcome, title)
        } else {
            Seq::empty()
        },
        pin: run.options.pin_auto_recap_message,
    };
    let group: int = if run.options.auto_recap_send_mode == 0 {
        1
    } else {
        0
    };
    assert forall|j: int| 0 <= j < stored.len() implies (#[trigger] targets[group + j])
        == (AutoRecapTarget { chat_id: run.subscribers@[j].user_id, is_private_subscriber: true }) by {
        assert(ids[j] == run.subscribers@[j].user_id);
    }
    lemma_planned_subscribers(inputs, targets, group, stored, 0, k);
    let rest = autorecap::planned_from(inputs, targets, group, stored, 0);
    let sent = autorecap::planned_from(inputs, targets, 0, stored, 0);
    if group == 1 {
        let first = TargetModel {
            chat_id: run.chat_id,
            parts: inputs.public_parts,
            keyboard: keyboards::vote_keyboard(run.chat_id, detailed.log_id@, counts),
            pin_first: inputs.pin,
        };
        assert(sent =~= seq![first] + rest);
    }
    lemma_stored_before(stored, k);
}

proof fn lemma_stored_before(stored: Seq<bool>, k: int)
    requires
        0 <= k <= stored.len(),
    ensures
        0 <= stored_before(stored, k),
    decreases k,
{
    if k > 0 {
        lemma_stored_before(stored, k - 1);
    }
}

proof fn lemma_planned_subscribers(
    inputs: DeliveryInputs,
    targets: Seq<AutoRecapTarget>,
    group: int,
    stored: Seq<bool>,
    s: int,
    k: int,
)
    requires
        0 <= s <= stored.len(),
        0 <= k < stored.len(),
        group >= 0,
        targets.len() == group + stored.len(),
        inputs.subscriber_parts.len() > 0,
        forall|j: int|
            0 <= j < stored.len() ==> (#[trigger] targets[group + j]).is_private_subscriber,
    ensures
        ({
            let rest = autorecap::planned_from(inputs, targets, group + s, stored, s);
            let at = stored_before(stored, k) - stored_before(stored, s);
            &&& rest.len() == stored_before(stored, stored.len() as int) - stored_before(stored, s)
            &&& s <= k && stored[k] ==> {
                &&& 0 <= at < rest.len()
                &&& rest[at].chat_id == targets[group + k].chat_id
                &&& !rest[at].pin_first
                &&& rest[at].parts == inputs.subscriber_parts
                &&& rest[at].keyboard == keyboards::subscriber_keyboard(
                    inputs.chat_id,
                    inputs.title,
                    targets[group + k].chat_id,
                    inputs.log_id,
                    inputs.counts,
                )
            }
        }),
    decreases stored.len() - s,
{
    if s < stored.len() {
        assert(targets[group + s].is_private_subscriber);
        lemma_planned_subscribers(inputs, targets, group, stored, s + 1, k);
        let rest = autorecap::planned_from(inputs, targets, group + s + 1, stored, s + 1);
        let all = autorecap::planned_from(inputs, targets, group + s, stored, s);
        let head = all.len() - rest.len();
        if s < k && stored[k] {
            let at = stored_before(stored, k) - stored_before(stored, s + 1);
            assert(all[at + head] == rest[at]);
        }
    }
}

/// The keyboard of a subscriber is stored before anything is sent: the one at their place,
/// with their own way out.
pub proof fn lemma_subscriber_keyboards_come_in_order(
    run: AutoRecapRun,
    canonical: Option<Seq<char>>,
)
    ensures
        autorecap::auto_recap_step(run, canonical)
            matches AutoRecapStepModel::StoreSubscriberKeyboard(keyboard) ==> {
            let next = run.subscriber_keyboards@.len() as int;
            &&& next < run.subscribers@.len()
            &&& run.histories matches Reply::Got(histories) && run.detailed matches Reply::Got(
                detailed,
            ) && run.counts matches Reply::Got(counts) && keyboard
                == keyboards::subscriber_keyboard(
                run.chat_id,
                histories@.last().chat_title@,
                run.subscribers@[next].user_id,
                detailed.log_id@,
                counts,
            )
        },
{
}

/// Five messages are too few for a recap, six are enough.
pub proof fn lemma_six_messages_make_a_recap(run: AutoRecapRun, canonical: Option<Seq<char>>)
    requires
        run.chat_kind is Got,
        run.generation_ready,
    ensures
        run.histories matches Reply::Got(histories) ==> {
            &&& histories@.len() < 6 ==> autorecap::auto_recap_step(run, canonical)
                == AutoRecapStepModel::Stop(AutoRecapStop::NotEnoughHistories)
            &&& histories@.len() >= 6 && run.detailed is Pending ==> autorecap::auto_recap_step(
                run,
                canonical,
            ) is Summarize
        },
{
}

// ---------------------------------------------------------------------------
// Preparation
// ---------------------------------------------------------------------------

/// Who is switched off gets nothing; who wants private recaps without having subscribers
/// gets none either; everyone else gets one with the options and the subscribers that were
/// read.
pub proof fn lemma_preparation(state: AutoRecapReadState)
    ensures
        state.options matches Some(options) ==> {
            &&& !state.enabled ==> autorecap::prepared(state) == Ok::<
                AutoRecapPreparation,
                autorecap::PreparationError,
            >(AutoRecapPreparation::Disabled)
            &&& state.enabled && (options.auto_recap_send_mode != 1 || state.subscribers@.len() > 0)
                ==> {
                &&& autorecap::prepared(state) is Ok
                &&& autorecap::prepared(state)->Ok_0 matches AutoRecapPreparation::Generate {
                    options: used,
                    subscribers,
                } && {
                    &&& subscribers == state.subscribers
                    &&& used.auto_recap_send_mode == options.auto_recap_send_mode
                    &&& used.pin_auto_recap_message == options.pin_auto_recap_message
                    &&& used.chat_id == options.chat_id
                    &&& used.auto_recap_rates_per_day == recaps_a_day(
                        options.auto_recap_rates_per_day as int,
                    )
                }
            }
            &&& state.enabled && options.auto_recap_send_mode == 1 && state.subscribers@.len() == 0
                ==> autorecap::prepared(state) is Ok && autorecap::prepared(state)->Ok_0
                is PrivateWithoutSubscribers
            &&& autorecap::queued_rates(state).len() == (if state.read_error_count > 0 {
                1int
            } else {
                0int
            }) + (if state.enabled {
                1int
            } else {
                0int
            })
            &&& forall|i: int|
                0 <= i < autorecap::queued_rates(state).len() ==> #[trigger] autorecap::queued_rates(
                    state,
                )[i] == recaps_a_day(options.auto_recap_rates_per_day as int)
        },
        state.options is None ==> autorecap::queued_rates(state).len() == 0,
{
    match state.options {
        Some(options) => {
            lemma_rate(options.auto_recap_rates_per_day);
        },
        None => {},
    }
}

} // verus!
