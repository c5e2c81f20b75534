//! Automatic recaps: what a due queue member leads to.

use vstd::prelude::*;

use crate::bot::keyboards::{
    self, build_subscriber_vote_keyboard, build_vote_keyboard, KeyboardModel, KeyboardPlan,
};
use crate::db::models::{ReactionCounts, TelegramChatAutoRecapsSubscriber, TelegramChatHistory};
use crate::db::models::{TelegramChatRecapsOptions, CHAT_TYPE_GROUP, CHAT_TYPE_SUPERGROUP};
use crate::identifier;
use crate::numeral::{self, format_i64};
use crate::reply::Reply;
use crate::services::autorecap_delivery::{self, AutoRecapDeliveryTarget, TargetModel};
use crate::services::autorecap_queue;
use crate::services::completion::copied;
use crate::services::condensed::{CondensedGenerationError, CondensedResult};
use crate::services::recap_generation::GroupDetailedRecap;
use crate::services::rich_recap::{
    self, build_rich_recap_summary, RichRecapSummaryConfig, SummaryInputs,
};
use crate::services::rich_split::{self, compose_rich_recap_messages, fallback_condensed_summary};
use crate::services::traces::{CondensedExecutionTrace, CondensedTrace};
use crate::text;

verus! {

/// How often each of the three reads is tried.
pub const STATE_READ_ATTEMPTS: usize = 10;

/// Seconds that queueing may take.
pub const AUTO_RECAP_QUEUE_TIMEOUT_SECONDS: u64 = 60;

/// Sends per second during delivery.
pub const AUTO_RECAP_SENDS_PER_SECOND: u32 = 5;

// ---------------------------------------------------------------------------
// Startup
// ---------------------------------------------------------------------------

/// The chats to be queued: those whose rate is known, in order.
pub open spec fn ready_chats(
    chat_ids: Seq<i64>,
    rates: Seq<Option<i64>>,
    i: int,
) -> Seq<(i64, i64)>
    decreases chat_ids.len() - i,
{
    if i < 0 || i >= chat_ids.len() || i >= rates.len() {
        Seq::empty()
    } else {
        match rates[i] {
            Some(rate) => seq![(chat_ids[i], rate)] + ready_chats(chat_ids, rates, i + 1),
            None => ready_chats(chat_ids, rates, i + 1),
        }
    }
}

/// The chats to be queued once the rate of every enabled chat was looked up: a chat whose
/// lookup failed is left out, the others keep their order.
pub fn seed_enabled_auto_recaps(chat_ids: &Vec<i64>, rates: &Vec<Option<i64>>) -> (ready: Vec<
    (i64, i64),
>)
    requires
        rates@.len() == chat_ids@.len(),
    ensures
        ready@ == ready_chats(chat_ids@, rates@, 0),
{
    let mut ready: Vec<(i64, i64)> = Vec::new();
    let mut i: usize = 0;
    assert(ready@ + ready_chats(chat_ids@, rates@, 0) =~= ready_chats(chat_ids@, rates@, 0));
    while i < chat_ids.len()
        invariant
            i <= chat_ids.len(),
            rates@.len() == chat_ids@.len(),
            ready@ + ready_chats(chat_ids@, rates@, i as int) == ready_chats(
                chat_ids@,
                rates@,
                0,
            ),
        decreases chat_ids.len() - i,
    {
        let ghost before = ready@;
        let ghost rest = ready_chats(chat_ids@, rates@, i as int);
        match rates[i] {
            Some(rate) => {
                ready.push((chat_ids[i], rate));
            },
            None => {},
        }
        i = i + 1;
        assert(ready@ + ready_chats(chat_ids@, rates@, i as int) =~= before + rest);
    }
    assert(ready@ =~= ready_chats(chat_ids@, rates@, 0));
    ready
}

/// The chat that is tried at once on startup, where the test switch names one.
pub fn test_chat(enabled: bool, chat_id: i64) -> (r: Option<i64>)
    ensures
        r == if enabled && chat_id != 0 {
            Some(chat_id)
        } else {
            None
        },
{
    if enabled && chat_id != 0 {
        Some(chat_id)
    } else {
        None
    }
}

/// The instant at which the next recap of a chat with a stored rate is due.
pub fn next_queue_score(rates_per_day: i64, timezone_shift_seconds: i64, now_utc_ms: i64) -> (due:
    i64)
    requires
        autorecap_queue::schedulable(
            now_utc_ms,
            timezone_shift_seconds,
            autorecap_queue::narrow_rate(rates_per_day),
        ),
    ensures
        due == autorecap_queue::next_due(
            now_utc_ms,
            timezone_shift_seconds,
            autorecap_queue::effective_rate(autorecap_queue::narrow_rate(rates_per_day)),
        ),
{
    let rate: i32 = autorecap_queue::effective_auto_recap_rate(
        autorecap_queue::stored_rate(rates_per_day),
    );
    autorecap_queue::next_auto_recap_at_ms(now_utc_ms, timezone_shift_seconds, rate)
}

// ---------------------------------------------------------------------------
// State reads
// ---------------------------------------------------------------------------

/// What is left of the three reads.
#[derive(Debug, PartialEq, Eq)]
pub struct AutoRecapReadState {
    pub enabled: bool,
    pub options: Option<TelegramChatRecapsOptions>,
    pub subscribers: Vec<TelegramChatAutoRecapsSubscriber>,
    pub read_error_count: usize,
}

/// Whether a read is tried again after so many failures.
pub fn read_again(failures: usize) -> (r: bool)
    ensures
        r == (failures < STATE_READ_ATTEMPTS),
{
    failures < STATE_READ_ATTEMPTS
}

pub open spec fn count(failed: bool) -> int {
    if failed {
        1
    } else {
        0
    }
}

/// What is left of the three reads, none where all attempts at one failed: a failed read
/// counts as not enabled, without options, without subscribers.
pub fn read_auto_recap_state(
    enabled: Option<bool>,
    options: Option<Option<TelegramChatRecapsOptions>>,
    subscribers: Option<Vec<TelegramChatAutoRecapsSubscriber>>,
) -> (state: AutoRecapReadState)
    ensures
        state.enabled == (enabled == Some(true)),
        state.options == match options {
            Some(found) => found,
            None => None,
        },
        state.subscribers@ == match subscribers {
            Some(found) => found@,
            None => Seq::empty(),
        },
        state.read_error_count == count(enabled is None) + count(options is None) + count(
            subscribers is None,
        ),
{
    let mut read_error_count: usize = 0;
    let enabled: bool = match enabled {
        Some(found) => found,
        None => {
            read_error_count = read_error_count + 1;
            false
        },
    };
    let options: Option<TelegramChatRecapsOptions> = match options {
        Some(found) => found,
        None => {
            read_error_count = read_error_count + 1;
            None
        },
    };
    let subscribers: Vec<TelegramChatAutoRecapsSubscriber> = match subscribers {
        Some(found) => found,
        None => {
            read_error_count = read_error_count + 1;
            Vec::new()
        },
    };
    AutoRecapReadState { enabled, options, subscribers, read_error_count }
}

// ---------------------------------------------------------------------------
// Preparation
// ---------------------------------------------------------------------------

/// What a due chat leads to.
#[derive(Debug, PartialEq, Eq)]
pub enum AutoRecapPreparation {
    Disabled,
    PrivateWithoutSubscribers { options: TelegramChatRecapsOptions },
    Generate {
        options: TelegramChatRecapsOptions,
        subscribers: Vec<TelegramChatAutoRecapsSubscriber>,
    },
}

#[derive(Debug, Clone, Copy, PartialEq, Eq, Structural)]
pub enum PreparationError {
    /// Reads failed and there are no options to go on with.
    ReadsExhausted,
    /// Recaps are enabled without options.
    OptionsUnavailable,
}

impl PreparationError {
    pub fn message(self) -> (out: &'static str)
        ensures
            out@ == match self {
                PreparationError::ReadsExhausted =>
                    "automatic recap state reads were exhausted and no usable options remained"@,
                PreparationError::OptionsUnavailable =>
                    "automatic recap is enabled but its options row is unavailable"@,
            },
    {
        match self {
            PreparationError::ReadsExhausted =>
                "automatic recap state reads were exhausted and no usable options remained",
            PreparationError::OptionsUnavailable =>
                "automatic recap is enabled but its options row is unavailable",
        }
    }
}

/// The rate that stored options come to.
pub open spec fn sound_rate(options: TelegramChatRecapsOptions) -> i64 {
    autorecap_queue::effective_rate(
        autorecap_queue::narrow_rate(options.auto_recap_rates_per_day),
    ) as i64
}

/// The options with that rate.
pub open spec fn with_sound_rate(options: TelegramChatRecapsOptions) -> TelegramChatRecapsOptions {
    TelegramChatRecapsOptions { auto_recap_rates_per_day: sound_rate(options), ..options }
}

/// The rates that the next recap is queued with, in order: once more after failed reads,
/// and once before anything is generated.
pub open spec fn queued_rates(state: AutoRecapReadState) -> Seq<i64> {
    match state.options {
        None => Seq::empty(),
        Some(options) => (if state.read_error_count > 0 {
            seq![sound_rate(options)]
        } else {
            Seq::empty()
        }) + (if state.enabled {
            seq![sound_rate(options)]
        } else {
            Seq::empty()
        }),
    }
}

/// What the state of a due chat leads to.
pub open spec fn prepared(state: AutoRecapReadState) -> Result<
    AutoRecapPreparation,
    PreparationError,
> {
    match state.options {
        None => if state.read_error_count > 0 {
            Err(PreparationError::ReadsExhausted)
        } else if !state.enabled {
            Ok(AutoRecapPreparation::Disabled)
        } else {
            Err(PreparationError::OptionsUnavailable)
        },
        Some(options) => if !state.enabled {
            Ok(AutoRecapPreparation::Disabled)
        } else if options.auto_recap_send_mode == 1 && state.subscribers@.len() == 0 {
            Ok(AutoRecapPreparation::PrivateWithoutSubscribers { options: with_sound_rate(options) })
        } else {
            Ok(
                AutoRecapPreparation::Generate {
                    options: with_sound_rate(options),
                    subscribers: state.subscribers,
                },
            )
        },
    }
}

/// What a due chat leads to, with the rates that its next recap is queued with first.
pub fn prepare_auto_recap(state: AutoRecapReadState) -> (r: (
    Vec<i64>,
    Result<AutoRecapPreparation, PreparationError>,
))
    ensures
        r.0@ == queued_rates(state),
        r.1 == prepared(state),
{
    let mut rates: Vec<i64> = Vec::new();
    match state.options {
        None => {
            if state.read_error_count > 0 {
                return (rates, Err(PreparationError::ReadsExhausted));
            }
            if !state.enabled {
                return (rates, Ok(AutoRecapPreparation::Disabled));
            }
            (rates, Err(PreparationError::OptionsUnavailable))
        },
        Some(mut options) => {
            let rate: i64 = autorecap_queue::effective_auto_recap_rate(
                autorecap_queue::stored_rate(options.auto_recap_rates_per_day),
            ) as i64;
            if state.read_error_count > 0 {
                rates.push(rate);
            }
            if !state.enabled {
                assert(rates@ =~= queued_rates(state));
                return (rates, Ok(AutoRecapPreparation::Disabled));
            }
            rates.push(rate);
            assert(rates@ =~= queued_rates(state));
            options.auto_recap_rates_per_day = rate;
            if options.auto_recap_send_mode == 1 && state.subscribers.len() == 0 {
                return (rates, Ok(AutoRecapPreparation::PrivateWithoutSubscribers { options }));
            }
            (rates, Ok(AutoRecapPreparation::Generate { options, subscribers: state.subscribers }))
        },
    }
}

/// A recap is generated only for an enabled chat, and never before its next recap was
/// queued with a rate of two, three or four a day.
pub proof fn lemma_requeued_before_generation(state: AutoRecapReadState)
    ensures
        forall|i: int|
            0 <= i < queued_rates(state).len() ==> 2 <= #[trigger] queued_rates(state)[i] <= 4,
        match prepared(state) {
            Ok(AutoRecapPreparation::Generate { options, subscribers }) => state.enabled
                && queued_rates(state).len() > 0 && queued_rates(state).last()
                == options.auto_recap_rates_per_day && !(options.auto_recap_send_mode == 1
                && subscribers@.len() == 0),
            _ => true,
        },
{
}

// ---------------------------------------------------------------------------
// Targets
// ---------------------------------------------------------------------------

/// One destination.
#[derive(Debug, Clone, Copy, PartialEq, Eq, Structural)]
pub struct AutoRecapTarget {
    pub chat_id: i64,
    pub is_private_subscriber: bool,
}

/// The destinations: the group itself first where recaps are public, then the
/// subscribers in order, repeated ones too.
pub open spec fn targets_of(source_chat_id: i64, send_mode: i64, subscriber_ids: Seq<i64>) -> Seq<
    AutoRecapTarget,
> {
    (if send_mode == 0 {
        seq![AutoRecapTarget { chat_id: source_chat_id, is_private_subscriber: false }]
    } else {
        Seq::empty()
    }) + Seq::new(
        subscriber_ids.len(),
        |i: int| AutoRecapTarget { chat_id: subscriber_ids[i], is_private_subscriber: true },
    )
}

pub fn build_auto_recap_targets(
    source_chat_id: i64,
    send_mode: i64,
    subscriber_ids: &Vec<i64>,
) -> (targets: Vec<AutoRecapTarget>)
    ensures
        targets@ == targets_of(source_chat_id, send_mode, subscriber_ids@),
{
    let ghost wanted = targets_of(source_chat_id, send_mode, subscriber_ids@);
    let mut targets: Vec<AutoRecapTarget> = Vec::new();
    if send_mode == 0 {
        targets.push(AutoRecapTarget { chat_id: source_chat_id, is_private_subscriber: false });
    }
    let ghost offset = targets@.len() as int;
    let mut i: usize = 0;
    assert(targets@ =~= wanted.take(offset));
    while i < subscriber_ids.len()
        invariant
            i <= subscriber_ids.len(),
            wanted == targets_of(source_chat_id, send_mode, subscriber_ids@),
            offset == if send_mode == 0 {
                1int
            } else {
                0int
            },
            targets@ == wanted.take(offset + i),
        decreases subscriber_ids.len() - i,
    {
        let target = AutoRecapTarget { chat_id: subscriber_ids[i], is_private_subscriber: true };
        assert(wanted[offset + i] == target);
        targets.push(target);
        i = i + 1;
        assert(targets@ =~= wanted.take(offset + i));
    }
    assert(targets@ =~= wanted);
    targets
}

/// A recap needs more than five messages.
pub fn has_enough_auto_recap_histories(history_count: usize) -> (r: bool)
    ensures
        r == (history_count > 5),
{
    history_count > 5
}

/// What kind of chat Telegram reports.
#[derive(Debug, Clone, Copy, PartialEq, Eq, Structural)]
pub enum ChatKind {
    Group,
    Supergroup,
    Channel,
    Private,
}

pub open spec fn chat_type_name(kind: ChatKind) -> Seq<char> {
    match kind {
        ChatKind::Group => CHAT_TYPE_GROUP@,
        ChatKind::Supergroup => CHAT_TYPE_SUPERGROUP@,
        ChatKind::Channel => "channel"@,
        ChatKind::Private => "private"@,
    }
}

pub fn telegram_chat_type(kind: ChatKind) -> (out: &'static str)
    ensures
        out@ == chat_type_name(kind),
{
    match kind {
        ChatKind::Group => CHAT_TYPE_GROUP,
        ChatKind::Supergroup => CHAT_TYPE_SUPERGROUP,
        ChatKind::Channel => "channel",
        ChatKind::Private => "private",
    }
}

// ---------------------------------------------------------------------------
// What a recap is composed of
// ---------------------------------------------------------------------------

/// What the condensed recap came to.
#[derive(Debug, PartialEq, Eq)]
pub enum CondensedOutcome {
    Generated(CondensedResult),
    Failed(CondensedGenerationError),
}

pub open spec fn condensed_trace_of(outcome: CondensedOutcome) -> CondensedTrace {
    match outcome {
        CondensedOutcome::Generated(result) => result.trace@,
        CondensedOutcome::Failed(error) => error.trace@,
    }
}

/// The condensed recap as it is shown: what was generated, or a piece of the detailed
/// recap, or `default`.
pub open spec fn shown_condensed(
    outcome: CondensedOutcome,
    summaries: Seq<Seq<char>>,
    default: Seq<char>,
) -> Seq<char> {
    match outcome {
        CondensedOutcome::Generated(result) => if text::is_blank(result.content@) {
            rich_split::fallback_summary(summaries, default)
        } else {
            text::trimmed(result.content@)
        },
        CondensedOutcome::Failed(_) => rich_split::fallback_summary(summaries, default),
    }
}

/// The condensed recap as it is shown, with its trace.
pub fn settle_condensed<'a>(
    outcome: &'a CondensedOutcome,
    summaries: &Vec<String>,
    default: &str,
) -> (r: (String, &'a CondensedExecutionTrace))
    ensures
        r.0@ == shown_condensed(*outcome, text::texts(summaries@), default@),
        r.1@ == condensed_trace_of(*outcome),
{
    match outcome {
        CondensedOutcome::Generated(result) => {
            let shown: String = if text::blank(result.content.as_str()) {
                fallback_condensed_summary(summaries, default)
            } else {
                text::trim(result.content.as_str())
            };
            (shown, &result.trace)
        },
        CondensedOutcome::Failed(error) => (
            fallback_condensed_summary(summaries, default),
            &error.trace,
        ),
    }
}

/// What stands for the condensed recap of so many hours where there is nothing else.
pub open spec fn default_condensed(hours: int) -> Seq<char> {
    "過去 "@ + numeral::decimal(hours) + " 小時的群組聊天回顧"@
}

pub fn default_condensed_summary(hours: i64) -> (out: String)
    ensures
        out@ == default_condensed(hours as int),
{
    let number: String = format_i64(hours);
    text::joined3("過去 ", number.as_str(), " 小時的群組聊天回顧")
}

/// The messages of a recap with the visible part that `inputs` describe.
pub open spec fn messages_of(inputs: SummaryInputs, summaries: Seq<Seq<char>>) -> Seq<Seq<char>> {
    rich_split::composed(rich_recap::visible_prefix(inputs), summaries)
}

/// The messages of a recap with the visible part that `config` describes.
pub fn recap_messages(config: &RichRecapSummaryConfig<'_>, summaries: &Vec<String>) -> (messages:
    Vec<String>)
    ensures
        text::texts(messages@) == messages_of(config@, text::texts(summaries@)),
{
    let visible: String = build_rich_recap_summary(config);
    compose_rich_recap_messages(visible.as_str(), summaries)
}

// ---------------------------------------------------------------------------
// One automatic recap
// ---------------------------------------------------------------------------

/// What is known of one automatic recap so far.
pub struct AutoRecapRun {
    pub chat_id: i64,
    pub options: TelegramChatRecapsOptions,
    pub subscribers: Vec<TelegramChatAutoRecapsSubscriber>,
    pub chat_kind: Reply<ChatKind>,
    /// The messages that were found; the chat has the title that the last of them says.
    pub histories: Reply<Vec<TelegramChatHistory>>,
    /// The limits of the models can be worked with.
    pub generation_ready: bool,
    pub detailed: Reply<GroupDetailedRecap>,
    pub counts: Reply<ReactionCounts>,
    /// Whether the payloads of the group's keyboard were stored.
    pub keyboard: Reply<()>,
    pub condensed: Option<CondensedOutcome>,
    /// For the subscribers in order, whether the payloads of their keyboards were stored.
    pub subscriber_keyboards: Vec<bool>,
}

/// Why one automatic recap ends before anything is delivered.
#[derive(Debug, Clone, Copy, PartialEq, Eq, Structural)]
pub enum AutoRecapStop {
    ChatUnavailable,
    HistoriesUnavailable,
    NotEnoughHistories,
    ModelsUnavailable,
    DetailedFailed,
    /// The identifier of the log does not read as one.
    LogUnreadable,
    CountsUnavailable,
    KeyboardNotStored,
    /// The detailed recap came out empty.
    NoSummaries,
}

/// What to do next.
#[derive(Debug, PartialEq, Eq)]
pub enum AutoRecapStep {
    LoadChat,
    /// Load the messages of so many hours.
    LoadHistories { hours: i64 },
    /// Make the detailed recap of a chat of this type.
    Summarize { chat_type: &'static str },
    /// Count the reactions to the log with this identifier.
    CountReactions { log_id: String },
    StoreKeyboard(KeyboardPlan),
    /// Make the condensed recap; a failure does not matter.
    Condense,
    /// Store the keyboard of the next subscriber; where that fails, they are left out.
    StoreSubscriberKeyboard(KeyboardPlan),
    /// Deliver to these targets in order, and end.
    Deliver(Vec<AutoRecapDeliveryTarget>),
    Stop(AutoRecapStop),
}

#[verifier::ext_equal]
pub enum AutoRecapStepModel {
    LoadChat,
    LoadHistories(i64),
    Summarize(Seq<char>),
    CountReactions(Seq<char>),
    StoreKeyboard(KeyboardModel),
    Condense,
    StoreSubscriberKeyboard(KeyboardModel),
    Deliver(Seq<TargetModel>),
    Stop(AutoRecapStop),
}

impl View for AutoRecapStep {
    type V = AutoRecapStepModel;

    open spec fn view(&self) -> AutoRecapStepModel {
        match self {
            AutoRecapStep::LoadChat => AutoRecapStepModel::LoadChat,
            AutoRecapStep::LoadHistories { hours } => AutoRecapStepModel::LoadHistories(*hours),
            AutoRecapStep::Summarize { chat_type } => AutoRecapStepModel::Summarize(chat_type@),
            AutoRecapStep::CountReactions { log_id } => AutoRecapStepModel::CountReactions(
                log_id@,
            ),
            AutoRecapStep::StoreKeyboard(plan) => AutoRecapStepModel::StoreKeyboard(plan@),
            AutoRecapStep::Condense => AutoRecapStepModel::Condense,
            AutoRecapStep::StoreSubscriberKeyboard(plan) =>
                AutoRecapStepModel::StoreSubscriberKeyboard(plan@),
            AutoRecapStep::Deliver(targets) => AutoRecapStepModel::Deliver(
                autorecap_delivery::targets_model(targets@),
            ),
            AutoRecapStep::Stop(reason) => AutoRecapStepModel::Stop(*reason),
        }
    }
}

/// The hours that an automatic recap covers.
pub open spec fn run_hours(run: AutoRecapRun) -> i64 {
    autorecap_queue::window_hours(
        autorecap_queue::narrow_rate(run.options.auto_recap_rates_per_day),
    )
}

pub open spec fn subscriber_ids(subscribers: Seq<TelegramChatAutoRecapsSubscriber>) -> Seq<i64> {
    Seq::new(subscribers.len(), |i: int| subscribers[i].user_id)
}

/// The messages of an automatic recap; subscribers are told which chat it is from.
pub open spec fn run_messages(
    run: AutoRecapRun,
    kind: ChatKind,
    title: Seq<char>,
    detailed: GroupDetailedRecap,
    outcome: CondensedOutcome,
    subscription_chat_title: Seq<char>,
) -> Seq<Seq<char>> {
    let summaries = text::texts(detailed.summaries@);
    messages_of(
        SummaryInputs {
            title,
            hours: run_hours(run),
            automatic: true,
            initiator_name: ""@,
            initiator_user_id: 0,
            condensed_summary: shown_condensed(
                outcome,
                summaries,
                default_condensed(run_hours(run) as int),
            ),
            general_group_notice: kind == ChatKind::Group,
            subscription_chat_title,
            condensed_trace: Some(condensed_trace_of(outcome)),
            recap_trace: Some(detailed.trace@),
        },
        summaries,
    )
}

/// What the deliveries of one automatic recap have in common.
#[verifier::ext_equal]
pub struct DeliveryInputs {
    pub chat_id: i64,
    pub title: Seq<char>,
    pub log_id: Seq<char>,
    pub counts: ReactionCounts,
    pub public_parts: Seq<Seq<char>>,
    pub subscriber_parts: Seq<Seq<char>>,
    pub pin: bool,
}

/// The deliveries to the targets from `i` on, where the next subscriber is the one at
/// `s`: a subscriber whose keyboard was not stored is left out, and so is a target
/// without messages; only the group's recap is pinned.
pub open spec fn planned_from(
    inputs: DeliveryInputs,
    targets: Seq<AutoRecapTarget>,
    i: int,
    stored: Seq<bool>,
    s: int,
) -> Seq<TargetModel>
    decreases targets.len() - i,
{
    if i < 0 || i >= targets.len() {
        Seq::empty()
    } else if targets[i].is_private_subscriber {
        (if 0 <= s < stored.len() && stored[s] && inputs.subscriber_parts.len() > 0 {
            seq![
                TargetModel {
                    chat_id: targets[i].chat_id,
                    parts: inputs.subscriber_parts,
                    keyboard: keyboards::subscriber_keyboard(
                        inputs.chat_id,
                        inputs.title,
                        targets[i].chat_id,
                        inputs.log_id,
                        inputs.counts,
                    ),
                    pin_first: false,
                },
            ]
        } else {
            Seq::empty()
        }) + planned_from(inputs, targets, i + 1, stored, s + 1)
    } else {
        (if inputs.public_parts.len() > 0 {
            seq![
                TargetModel {
                    chat_id: targets[i].chat_id,
                    parts: inputs.public_parts,
                    keyboard: keyboards::vote_keyboard(
                        inputs.chat_id,
                        inputs.log_id,
                        inputs.counts,
                    ),
                    pin_first: inputs.pin,
                },
            ]
        } else {
            Seq::empty()
        }) + planned_from(inputs, targets, i + 1, stored, s)
    }
}

/// The deliveries of one automatic recap.
pub open spec fn run_deliveries(
    run: AutoRecapRun,
    kind: ChatKind,
    title: Seq<char>,
    detailed: GroupDetailedRecap,
    counts: ReactionCounts,
    outcome: CondensedOutcome,
) -> Seq<TargetModel> {
    planned_from(
        DeliveryInputs {
            chat_id: run.chat_id,
            title,
            log_id: detailed.log_id@,
            counts,
            public_parts: if run.options.auto_recap_send_mode == 0 {
                run_messages(run, kind, title, detailed, outcome, ""@)
            } else {
                Seq::empty()
            },
            subscriber_parts: if run.subscribers@.len() > 0 {
                run_messages(run, kind, title, detailed, outcome, title)
            } else {
                Seq::empty()
            },
            pin: run.options.pin_auto_recap_message,
        },
        targets_of(
            run.chat_id,
            run.options.auto_recap_send_mode,
            subscriber_ids(run.subscribers@),
        ),
        0,
        run.subscriber_keyboards@,
        0,
    )
}

/// What to do once the detailed recap is there, where the identifier of its log reads as
/// `canonical`.
pub open spec fn after_detailed(
    run: AutoRecapRun,
    kind: ChatKind,
    title: Seq<char>,
    detailed: GroupDetailedRecap,
    canonical: Option<Seq<char>>,
) -> AutoRecapStepModel {
    match canonical {
        None => AutoRecapStepModel::Stop(AutoRecapStop::LogUnreadable),
        Some(log_id) => match run.counts {
            Reply::Pending => AutoRecapStepModel::CountReactions(log_id),
            Reply::Failed => AutoRecapStepModel::Stop(AutoRecapStop::CountsUnavailable),
            Reply::Got(counts) => match run.keyboard {
                Reply::Pending => AutoRecapStepModel::StoreKeyboard(
                    keyboards::vote_keyboard(run.chat_id, detailed.log_id@, counts),
                ),
                Reply::Failed => AutoRecapStepModel::Stop(AutoRecapStop::KeyboardNotStored),
                Reply::Got(_) => if detailed.summaries@.len() == 0 {
                    AutoRecapStepModel::Stop(AutoRecapStop::NoSummaries)
                } else {
                    match run.condensed {
                        None => AutoRecapStepModel::Condense,
                        Some(outcome) => if run.subscriber_keyboards@.len()
                            < run.subscribers@.len() {
                            AutoRecapStepModel::StoreSubscriberKeyboard(
                                keyboards::subscriber_keyboard(
                                    run.chat_id,
                                    title,
                                    run.subscribers@[run.subscriber_keyboards@.len() as int].user_id,
                                    detailed.log_id@,
                                    counts,
                                ),
                            )
                        } else {
                            AutoRecapStepModel::Deliver(
                                run_deliveries(run, kind, title, detailed, counts, outcome),
                            )
                        },
                    }
                },
            },
        },
    }
}

/// What to do next for one automatic recap: the chat, its messages, the detailed recap
/// and its keyboard, the condensed recap, the keyboards of the subscribers, the delivery.
pub open spec fn auto_recap_step(
    run: AutoRecapRun,
    canonical: Option<Seq<char>>,
) -> AutoRecapStepModel {
    match run.chat_kind {
        Reply::Pending => AutoRecapStepModel::LoadChat,
        Reply::Failed => AutoRecapStepModel::Stop(AutoRecapStop::ChatUnavailable),
        Reply::Got(kind) => match run.histories {
            Reply::Pending => AutoRecapStepModel::LoadHistories(run_hours(run)),
            Reply::Failed => AutoRecapStepModel::Stop(AutoRecapStop::HistoriesUnavailable),
            Reply::Got(histories) => if histories@.len() <= 5 {
                AutoRecapStepModel::Stop(AutoRecapStop::NotEnoughHistories)
            } else if !run.generation_ready {
                AutoRecapStepModel::Stop(AutoRecapStop::ModelsUnavailable)
            } else {
                match run.detailed {
                    Reply::Pending => AutoRecapStepModel::Summarize(chat_type_name(kind)),
                    Reply::Failed => AutoRecapStepModel::Stop(AutoRecapStop::DetailedFailed),
                    Reply::Got(detailed) => after_detailed(
                        run,
                        kind,
                        histories@.last().chat_title@,
                        detailed,
                        canonical,
                    ),
                }
            },
        },
    }
}

fn plan_deliveries(
    run: &AutoRecapRun,
    title: &str,
    log_id: &str,
    counts: ReactionCounts,
    public_parts: &Vec<String>,
    subscriber_parts: &Vec<String>,
) -> (plan: Vec<AutoRecapDeliveryTarget>)
    ensures
        autorecap_delivery::targets_model(plan@) == planned_from(
            (DeliveryInputs {
                chat_id: run.chat_id,
                title: title@,
                log_id: log_id@,
                counts,
                public_parts: text::texts(public_parts@),
                subscriber_parts: text::texts(subscriber_parts@),
                pin: run.options.pin_auto_recap_message,
            }),
            targets_of(
                run.chat_id,
                run.options.auto_recap_send_mode,
                subscriber_ids(run.subscribers@),
            ),
            0,
            run.subscriber_keyboards@,
            0,
        ),
{
    let mut ids: Vec<i64> = Vec::new();
    let mut n: usize = 0;
    while n < run.subscribers.len()
        invariant
            n <= run.subscribers.len(),
            ids@ == subscriber_ids(run.subscribers@).take(n as int),
        decreases run.subscribers.len() - n,
    {
        ids.push(run.subscribers[n].user_id);
        n = n + 1;
        assert(ids@ =~= subscriber_ids(run.subscribers@).take(n as int));
    }
    assert(ids@ =~= subscriber_ids(run.subscribers@));
    let targets: Vec<AutoRecapTarget> = build_auto_recap_targets(
        run.chat_id,
        run.options.auto_recap_send_mode,
        &ids,
    );
    let ghost inputs = DeliveryInputs {
        chat_id: run.chat_id,
        title: title@,
        log_id: log_id@,
        counts,
        public_parts: text::texts(public_parts@),
        subscriber_parts: text::texts(subscriber_parts@),
        pin: run.options.pin_auto_recap_message,
    };
    let ghost stored = run.subscriber_keyboards@;
    let ghost wanted = planned_from(inputs, targets@, 0, stored, 0);
    let mut plan: Vec<AutoRecapDeliveryTarget> = Vec::new();
    let mut i: usize = 0;
    let mut s: usize = 0;
    assert(autorecap_delivery::targets_model(plan@) + wanted =~= wanted);
    while i < targets.len()
        invariant
            s <= i <= targets.len(),
            stored == run.subscriber_keyboards@,
            inputs == (DeliveryInputs {
                chat_id: run.chat_id,
                title: title@,
                log_id: log_id@,
                counts,
                public_parts: text::texts(public_parts@),
                subscriber_parts: text::texts(subscriber_parts@),
                pin: run.options.pin_auto_recap_message,
            }),
            wanted == planned_from(inputs, targets@, 0, stored, 0),
            autorecap_delivery::targets_model(plan@) + planned_from(
                inputs,
                targets@,
                i as int,
                stored,
                s as int,
            ) == wanted,
        decreases targets.len() - i,
    {
        let ghost before = autorecap_delivery::targets_model(plan@);
        let ghost rest = planned_from(inputs, targets@, i as int, stored, s as int);
        let target: AutoRecapTarget = targets[i];
        if target.is_private_subscriber {
            assert(inputs.subscriber_parts.len() == subscriber_parts.len());
            if s < run.subscriber_keyboards.len() && run.subscriber_keyboards[s]
                && subscriber_parts.len() > 0 {
                let delivery = AutoRecapDeliveryTarget {
                    chat_id: target.chat_id,
                    parts: copied(subscriber_parts),
                    keyboard: build_subscriber_vote_keyboard(
                        run.chat_id,
                        title,
                        target.chat_id,
                        log_id,
                        counts,
                    ),
                    pin_first: false,
                };
                plan.push(delivery);
                assert(autorecap_delivery::targets_model(plan@) =~= before.push(delivery@));
            }
            s = s + 1;
        } else {
            assert(inputs.public_parts.len() == public_parts.len());
            if public_parts.len() > 0 {
                let delivery = AutoRecapDeliveryTarget {
                    chat_id: target.chat_id,
                    parts: copied(public_parts),
                    keyboard: build_vote_keyboard(run.chat_id, log_id, counts),
                    pin_first: run.options.pin_auto_recap_message,
                };
                plan.push(delivery);
                assert(autorecap_delivery::targets_model(plan@) =~= before.push(delivery@));
            }
        }
        i = i + 1;
        assert(autorecap_delivery::targets_model(plan@) + planned_from(
            inputs,
            targets@,
            i as int,
            stored,
            s as int,
        ) =~= before + rest);
    }
    assert(autorecap_delivery::targets_model(plan@) =~= wanted);
    plan
}

fn compose_run(
    run: &AutoRecapRun,
    kind: ChatKind,
    title: &str,
    detailed: &GroupDetailedRecap,
    outcome: &CondensedOutcome,
    subscription_chat_title: &str,
) -> (messages: Vec<String>)
    ensures
        text::texts(messages@) == run_messages(
            *run,
            kind,
            title@,
            *detailed,
            *outcome,
            subscription_chat_title@,
        ),
{
    let hours: i64 = autorecap_queue::auto_recap_window_hours(
        autorecap_queue::stored_rate(run.options.auto_recap_rates_per_day),
    );
    let default: String = default_condensed_summary(hours);
    let (shown, trace) = settle_condensed(outcome, &detailed.summaries, default.as_str());
    let config = RichRecapSummaryConfig {
        title,
        hours,
        automatic: true,
        initiator_name: "",
        initiator_user_id: 0,
        condensed_summary: shown.as_str(),
        general_group_notice: kind == ChatKind::Group,
        subscription_chat_title,
        condensed_trace: Some(trace),
        recap_trace: Some(&detailed.trace),
    };
    recap_messages(&config, &detailed.summaries)
}

fn deliver_run(
    run: &AutoRecapRun,
    kind: ChatKind,
    title: &str,
    detailed: &GroupDetailedRecap,
    counts: ReactionCounts,
    outcome: &CondensedOutcome,
) -> (plan: Vec<AutoRecapDeliveryTarget>)
    ensures
        autorecap_delivery::targets_model(plan@) == run_deliveries(
            *run,
            kind,
            title@,
            *detailed,
            counts,
            *outcome,
        ),
{
    let none: Vec<String> = Vec::new();
    assert(text::texts(none@) =~= Seq::<Seq<char>>::empty());
    let public_parts: Vec<String> = if run.options.auto_recap_send_mode == 0 {
        compose_run(run, kind, title, detailed, outcome, "")
    } else {
        Vec::new()
    };
    let subscriber_parts: Vec<String> = if run.subscribers.len() > 0 {
        compose_run(run, kind, title, detailed, outcome, title)
    } else {
        Vec::new()
    };
    assert(run.options.auto_recap_send_mode != 0 ==> text::texts(public_parts@) =~= Seq::<
        Seq<char>,
    >::empty());
    assert(run.subscribers@.len() == 0 ==> text::texts(subscriber_parts@) =~= Seq::<
        Seq<char>,
    >::empty());
    plan_deliveries(
        run,
        title,
        detailed.log_id.as_str(),
        counts,
        &public_parts,
        &subscriber_parts,
    )
}

fn detailed_step(
    run: &AutoRecapRun,
    kind: ChatKind,
    title: &str,
    detailed: &GroupDetailedRecap,
    canonical: Option<String>,
) -> (step: AutoRecapStep)
    ensures
        step@ == after_detailed(*run, kind, title@, *detailed, text::viewed(canonical)),
{
    let log_id: String = match canonical {
        Some(log_id) => log_id,
        None => {
            return AutoRecapStep::Stop(AutoRecapStop::LogUnreadable);
        },
    };
    let counts: ReactionCounts = match &run.counts {
        Reply::Pending => {
            return AutoRecapStep::CountReactions { log_id };
        },
        Reply::Failed => {
            return AutoRecapStep::Stop(AutoRecapStop::CountsUnavailable);
        },
        Reply::Got(counts) => *counts,
    };
    match &run.keyboard {
        Reply::Pending => {
            return AutoRecapStep::StoreKeyboard(
                build_vote_keyboard(run.chat_id, detailed.log_id.as_str(), counts),
            );
        },
        Reply::Failed => {
            return AutoRecapStep::Stop(AutoRecapStop::KeyboardNotStored);
        },
        Reply::Got(_) => {},
    }
    if detailed.summaries.len() == 0 {
        return AutoRecapStep::Stop(AutoRecapStop::NoSummaries);
    }
    match &run.condensed {
        None => AutoRecapStep::Condense,
        Some(outcome) => {
            let next: usize = run.subscriber_keyboards.len();
            if next < run.subscribers.len() {
                return AutoRecapStep::StoreSubscriberKeyboard(
                    build_subscriber_vote_keyboard(
                        run.chat_id,
                        title,
                        run.subscribers[next].user_id,
                        detailed.log_id.as_str(),
                        counts,
                    ),
                );
            }
            AutoRecapStep::Deliver(deliver_run(run, kind, title, detailed, counts, outcome))
        },
    }
}

/// What to do next for one automatic recap, where the identifier of its log reads as
/// `canonical`.
pub fn auto_recap_step_with(run: &AutoRecapRun, canonical: Option<String>) -> (step: AutoRecapStep)
    ensures
        step@ == auto_recap_step(*run, text::viewed(canonical)),
{
    let kind: ChatKind = match &run.chat_kind {
        Reply::Pending => {
            return AutoRecapStep::LoadChat;
        },
        Reply::Failed => {
            return AutoRecapStep::Stop(AutoRecapStop::ChatUnavailable);
        },
        Reply::Got(kind) => *kind,
    };
    match &run.histories {
        Reply::Pending => {
            return AutoRecapStep::LoadHistories {
                hours: autorecap_queue::auto_recap_window_hours(
                    autorecap_queue::stored_rate(run.options.auto_recap_rates_per_day),
                ),
            };
        },
        Reply::Failed => {
            return AutoRecapStep::Stop(AutoRecapStop::HistoriesUnavailable);
        },
        Reply::Got(histories) => {
            if !has_enough_auto_recap_histories(histories.len()) {
                return AutoRecapStep::Stop(AutoRecapStop::NotEnoughHistories);
            }
            if !run.generation_ready {
                return AutoRecapStep::Stop(AutoRecapStop::ModelsUnavailable);
            }
            match &run.detailed {
                Reply::Pending => AutoRecapStep::Summarize { chat_type: telegram_chat_type(kind) },
                Reply::Failed => AutoRecapStep::Stop(AutoRecapStop::DetailedFailed),
                Reply::Got(detailed) => detailed_step(
                    run,
                    kind,
                    histories[histories.len() - 1].chat_title.as_str(),
                    detailed,
                    canonical,
                ),
            }
        },
    }
}

/// What the identifier of the log of a detailed recap reads as, once there is one.
pub open spec fn log_of(detailed: Reply<GroupDetailedRecap>) -> Option<Seq<char>> {
    match detailed {
        Reply::Got(recap) => identifier::canonical_uuid(recap.log_id@),
        _ => None,
    }
}

/// What the identifier of the log of a detailed recap reads as, once there is one.
pub fn log_identifier(detailed: &Reply<GroupDetailedRecap>) -> (r: Option<String>)
    ensures
        text::viewed(r) == log_of(*detailed),
{
    match detailed {
        Reply::Got(recap) => identifier::parse_uuid(recap.log_id.as_str()),
        _ => None,
    }
}

/// What to do next for one automatic recap.
pub fn generate_and_deliver_auto_recap_step(run: &AutoRecapRun) -> (step: AutoRecapStep)
    ensures
        step@ == auto_recap_step(*run, log_of(run.detailed)),
{
    auto_recap_step_with(run, log_identifier(&run.detailed))
}

// ---------------------------------------------------------------------------
// Laws
// ---------------------------------------------------------------------------

/// Only a delivery to the group itself is ever pinned, and only where pinning is on; no
/// delivery is without messages, and none goes to anyone but a target.
pub proof fn lemma_only_the_group_is_pinned(
    inputs: DeliveryInputs,
    targets: Seq<AutoRecapTarget>,
    i: int,
    stored: Seq<bool>,
    s: int,
)
    requires
        0 <= i <= targets.len(),
    ensures
        forall|k: int|
            0 <= k < planned_from(inputs, targets, i, stored, s).len() ==> sound_delivery(
                inputs,
                targets,
                #[trigger] planned_from(inputs, targets, i, stored, s)[k],
            ),
    decreases targets.len() - i,
{
    let all = planned_from(inputs, targets, i, stored, s);
    if i < targets.len() {
        let next = if targets[i].is_private_subscriber {
            s + 1
        } else {
            s
        };
        let rest = planned_from(inputs, targets, i + 1, stored, next);
        lemma_only_the_group_is_pinned(inputs, targets, i + 1, stored, next);
        assert forall|k: int| 0 <= k < all.len() implies sound_delivery(
            inputs,
            targets,
            #[trigger] all[k],
        ) by {
            let skipped = all.len() - rest.len();
            if k >= skipped {
                assert(all[k] == rest[k - skipped]);
            } else {
                assert(targets[i].chat_id == all[k].chat_id);
            }
        }
    }
}

/// A delivery that has messages, goes to a target, and is pinned only in the group.
pub open spec fn sound_delivery(
    inputs: DeliveryInputs,
    targets: Seq<AutoRecapTarget>,
    delivery: TargetModel,
) -> bool {
    &&& delivery.parts.len() > 0
    &&& exists|t: int|
        0 <= t < targets.len() && delivery.chat_id == (#[trigger] targets[t]).chat_id && (
        delivery.pin_first ==> inputs.pin && !targets[t].is_private_subscriber)
}

/// Nothing is delivered without more than five messages, a detailed recap that is not
/// empty, and an attempt at the condensed recap and at the keyboard of every subscriber.
pub proof fn lemma_delivery_needs_content(run: AutoRecapRun, canonical: Option<Seq<char>>)
    requires
        auto_recap_step(run, canonical) is Deliver,
    ensures
        run.histories matches Reply::Got(histories) && histories@.len() > 5,
        run.detailed matches Reply::Got(detailed) && detailed.summaries@.len() > 0,
        run.condensed is Some,
        run.subscriber_keyboards@.len() >= run.subscribers@.len(),
{
}

} // verus!
