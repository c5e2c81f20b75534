//! What holds of detailed recaps: what the models are shown of a chat, how the slices are
//! worked through, and what is kept of the answers.

use vstd::prelude::*;

use crate::config::RecapModel;
use crate::db::models::TelegramChatHistory;
use crate::numeral;
use crate::services::patterns;
use crate::services::recap_generation::{
    self, AttemptModel, BudgetError, GroupMessage, PrivateForwardedReplayChatHistory,
    SlicesStepModel,
};
use crate::services::rich_recap::{self, RecapStyle};
use crate::services::traces::{self, GenerationTrace};
use crate::text;

verus! {

// ---------------------------------------------------------------------------
// What the models read
// ---------------------------------------------------------------------------

/// How a sender is shown: by the username where the full name has ten characters or more,
/// else by the full name; a number sign in it is left out.
pub open spec fn shown_as(full_name: Seq<char>, username: Seq<char>, shown: Seq<char>) -> bool {
    if full_name.len() >= 10 && username.len() > 0 {
        shown == username
    } else {
        shown == text::replaced(full_name, "#"@, ""@)
    }
}

/// Every message has one line of the prompt, in order: its own number, who sent it and
/// its text, and where it is a reply, the number and the sender of the message that it
/// answers. Behind each number is the message that it stands for.
pub proof fn lemma_prompt_shows_every_message(histories: Seq<TelegramChatHistory>, i: int)
    requires
        0 <= i < histories.len(),
        2 * histories.len() < i64::MAX,
    ensures
        ({
            let messages = recap_generation::group_messages(histories);
            let lines = recap_generation::prompt_lines(messages);
            let numbers = recap_generation::numbered(
                recap_generation::mentioned(messages, messages.len() as int),
            );
            let history = histories[i];
            &&& lines.len() == histories.len()
            &&& text::occurs(text::join_spec(lines, "\n"@), lines[i])
            &&& exists|number: i64, sender: Seq<char>, answered: Seq<char>|
                {
                    &&& #[trigger] line_of(history, number, sender, answered) == lines[i]
                    &&& shown_as(history.full_name@, history.username@, sender)
                    &&& shown_as(
                        history.replied_to_full_name@,
                        history.replied_to_username@,
                        answered,
                    )
                    &&& numbers.contains_key(number) && numbers[number] == history.message_id
                    &&& history.replied_to_message_id != 0 ==> numbers.contains_key(
                        (number + 1) as i64,
                    ) && numbers[(number + 1) as i64] == history.replied_to_message_id
                }
        }),
{
    let messages = recap_generation::group_messages(histories);
    let lines = recap_generation::prompt_lines(messages);
    let history = histories[i];
    recap_generation::lemma_numbers_resolve(messages, i);
    lemma_mentioned_fits(messages, i);
    let number = (recap_generation::mentioned(messages, i).len() + 1) as i64;
    let sender = recap_generation::prompt_name(history.full_name@, history.username@);
    let answered = recap_generation::prompt_name(
        history.replied_to_full_name@,
        history.replied_to_username@,
    );
    text::lemma_join_holds(lines, "\n"@, i);
    assert(messages[i] == recap_generation::group_message(history));
    assert(line_of(history, number, sender, answered) =~= lines[i]);
}

proof fn lemma_mentioned_fits(messages: Seq<GroupMessage>, n: int)
    requires
        0 <= n <= messages.len(),
    ensures
        n <= recap_generation::mentioned(messages, n).len() <= 2 * n,
    decreases n,
{
    if n > 0 {
        lemma_mentioned_fits(messages, n - 1);
    }
}

/// The line of a message with its number, as its sender and the one that it answers are
/// shown.
pub open spec fn line_of(
    history: TelegramChatHistory,
    number: i64,
    sender: Seq<char>,
    answered: Seq<char>,
) -> Seq<char> {
    "msgId:"@ + numeral::decimal(number as int) + ": "@ + sender + (if history.replied_to_message_id
        == 0 {
        " sent: "@
    } else {
        " replying to ["@ + answered + " sent msgId:"@ + numeral::decimal(number + 1) + "]: "@
    }) + history.text@
}

/// A forwarded message is shown under its own identifier, with its sender and its text.
pub proof fn lemma_forwarded_prompt_shows_every_message(
    histories: Seq<PrivateForwardedReplayChatHistory>,
    i: int,
)
    requires
        0 <= i < histories.len(),
    ensures
        ({
            let lines = recap_generation::forwarded_lines(histories);
            let history = histories[i];
            &&& lines.len() == histories.len()
            &&& text::occurs(text::join_spec(lines, "\n"@), lines[i])
            &&& exists|sender: Seq<char>|
                shown_as(history.actor_display_name@, history.actor_username@, sender) && lines[i]
                    == #[trigger] ("msgId:"@ + numeral::decimal(history.message_id as int) + ": "@
                    + sender + " sent: "@ + history.text@)
        }),
{
    let lines = recap_generation::forwarded_lines(histories);
    let history = histories[i];
    text::lemma_join_holds(lines, "\n"@, i);
    let sender = recap_generation::prompt_name(
        history.actor_display_name@,
        history.actor_username@,
    );
    assert(lines[i] == "msgId:"@ + numeral::decimal(history.message_id as int) + ": "@ + sender
        + " sent: "@ + history.text@);
}

/// The line of a message in the transcript that is condensed.
pub open spec fn condensed_entry(history: TelegramChatHistory, place: int) -> Seq<char> {
    "["@ + numeral::decimal(place) + "] "@ + (if history.full_name@.len() > 0 {
        history.full_name@
    } else if history.username@.len() > 0 {
        history.username@
    } else {
        "未知用戶"@
    }) + ": "@ + history.text@ + "\n"@
}

/// The transcript that is condensed has every message that has text, under its place, and
/// is no longer than that.
pub proof fn lemma_transcript_has_every_message(histories: Seq<TelegramChatHistory>, i: int)
    requires
        0 <= i < histories.len(),
    ensures
        ({
            let whole = recap_generation::condensed_history(
                recap_generation::group_messages(histories),
                0,
            );
            &&& histories[i].text@.len() > 0 ==> text::occurs(
                whole,
                condensed_entry(histories[i], i + 1),
            )
            &&& whole.len() == transcript_size(histories, 0)
        }),
{
    lemma_transcript_from(histories, 0, i);
}

/// The length of the transcript from message `i` on.
pub open spec fn transcript_size(histories: Seq<TelegramChatHistory>, i: int) -> int
    decreases histories.len() - i,
{
    if i < 0 || i >= histories.len() {
        0
    } else {
        transcript_size(histories, i + 1) + if histories[i].text@.len() > 0 {
            condensed_entry(histories[i], i + 1).len() as int
        } else {
            0
        }
    }
}

proof fn lemma_transcript_from(histories: Seq<TelegramChatHistory>, from: int, i: int)
    requires
        0 <= from <= histories.len(),
        0 <= i < histories.len(),
    ensures
        ({
            let rest = recap_generation::condensed_history(
                recap_generation::group_messages(histories),
                from,
            );
            &&& rest.len() == transcript_size(histories, from)
            &&& from <= i && histories[i].text@.len() > 0 ==> text::occurs(
                rest,
                condensed_entry(histories[i], i + 1),
            )
        }),
    decreases histories.len() - from,
{
    let messages = recap_generation::group_messages(histories);
    if from < histories.len() {
        lemma_transcript_from(histories, from + 1, i);
        let all = recap_generation::condensed_history(messages, from);
        let rest = recap_generation::condensed_history(messages, from + 1);
        assert(messages[from] == recap_generation::group_message(histories[from]));
        if histories[from].text@.len() > 0 {
            let entry = condensed_entry(histories[from], from + 1);
            assert(all =~= entry + rest);
            if from == i {
                assert(all.subrange(0, entry.len() as int) =~= entry);
                assert(text::matches_at(all, entry, 0));
            } else if from < i && histories[i].text@.len() > 0 {
                text::lemma_occurs_within(
                    entry,
                    rest,
                    Seq::empty(),
                    condensed_entry(histories[i], i + 1),
                );
                assert(entry + rest + Seq::<char>::empty() =~= all);
            }
        }
    }
}

// ---------------------------------------------------------------------------
// Slices
// ---------------------------------------------------------------------------

/// The step for the slices of a recap after these attempts.
pub open spec fn after(slices: Seq<Seq<char>>, attempts: Seq<AttemptModel>) -> SlicesStepModel {
    recap_generation::slices_step(
        slices,
        attempts,
        0,
        0,
        Seq::empty(),
        traces::blank_generation(),
    )
}

/// Whether an attempt came back with a recap.
pub open spec fn came_back(attempt: AttemptModel) -> bool {
    attempt matches AttemptModel::Generated { content, .. } && !text::is_blank(content)
}

/// Whether a step follows from the one before it by one more attempt at a slice: one that
/// came back settles the slice and leads to the next, one that did not has it tried again
/// after a delay, up to five times.
pub open spec fn follows(
    slices: Seq<Seq<char>>,
    slice: int,
    attempt: AttemptModel,
    next: SlicesStepModel,
) -> bool {
    if came_back(attempt) {
        if slice + 1 == slices.len() {
            next matches SlicesStepModel::Finished { summaries, .. } && summaries.len()
                == slices.len() && summaries.last() == text::trimmed(attempt->content)
        } else if text::is_blank(slices[slice + 1]) {
            next is Failed
        } else {
            next == (SlicesStepModel::Summarize { slice: slice + 1, delayed: false })
        }
    } else {
        ||| next == (SlicesStepModel::Summarize { slice, delayed: true })
        ||| next matches SlicesStepModel::Failed { source, .. } && source == match attempt {
            AttemptModel::Generated { .. } => "recap model returned empty Rich Markdown"@,
            AttemptModel::Failed { source, .. } => source,
        }
    }
}

/// The slices are worked through in order, each with its own attempts.
pub proof fn lemma_slices_advance(
    slices: Seq<Seq<char>>,
    attempts: Seq<AttemptModel>,
    attempt: AttemptModel,
)
    ensures
        after(slices, attempts) matches SlicesStepModel::Summarize { slice, .. } ==> 0 <= slice
            < slices.len() && follows(slices, slice, attempt, after(slices, attempts.push(attempt))),
{
    lemma_advance_from(
        slices,
        attempts,
        attempt,
        0,
        0,
        Seq::empty(),
        traces::blank_generation(),
    );
}

proof fn lemma_same_fruit(
    attempts: Seq<AttemptModel>,
    attempt: AttemptModel,
    j: int,
    end: int,
)
    requires
        0 <= j <= end <= attempts.len(),
    ensures
        recap_generation::first_fruitful(attempts.push(attempt), j, end)
            == recap_generation::first_fruitful(attempts, j, end),
        recap_generation::first_fruitful(attempts, j, end) matches Some(k) ==> j <= k < end,
    decreases end - j,
{
    if j < end {
        assert(attempts.push(attempt)[j] == attempts[j]);
        lemma_same_fruit(attempts, attempt, j + 1, end);
    }
}

proof fn lemma_later_fruit(attempts: Seq<AttemptModel>, j: int, end: int, k: int)
    requires
        0 <= j <= end <= k <= attempts.len(),
        recap_generation::first_fruitful(attempts, j, end) is Some,
    ensures
        recap_generation::first_fruitful(attempts, j, k) == recap_generation::first_fruitful(
            attempts,
            j,
            end,
        ),
    decreases end - j,
{
    if j < end && !recap_generation::fruitful(attempts[j]) {
        lemma_later_fruit(attempts, j + 1, end, k);
    }
}

proof fn lemma_last_fruit(attempts: Seq<AttemptModel>, j: int, end: int)
    requires
        0 <= j <= end < attempts.len(),
        recap_generation::first_fruitful(attempts, j, end) is None,
    ensures
        recap_generation::first_fruitful(attempts, j, end + 1)
            == if recap_generation::fruitful(attempts[end]) {
            Some(end)
        } else {
            None
        },
    decreases end - j,
{
    if j < end {
        lemma_last_fruit(attempts, j + 1, end);
    } else {
        assert(recap_generation::first_fruitful(attempts, end + 1, end + 1) is None);
    }
}

proof fn lemma_advance_from(
    slices: Seq<Seq<char>>,
    attempts: Seq<AttemptModel>,
    attempt: AttemptModel,
    i: int,
    j: int,
    summaries: Seq<Seq<char>>,
    trace: GenerationTrace,
)
    requires
        0 <= i <= slices.len(),
        0 <= j <= attempts.len(),
        summaries.len() == i,
    ensures
        recap_generation::slices_step(slices, attempts, i, j, summaries, trace)
            matches SlicesStepModel::Summarize { slice, .. } ==> i <= slice < slices.len()
            && follows(
            slices,
            slice,
            attempt,
            recap_generation::slices_step(
                slices,
                attempts.push(attempt),
                i,
                j,
                summaries,
                trace,
            ),
        ),
    decreases slices.len() - i,
{
    if i < slices.len() && !text::is_blank(slices[i]) {
        let more = attempts.push(attempt);
        let there: int = if attempts.len() - j < 5 {
            attempts.len() - j
        } else {
            5
        };
        lemma_same_fruit(attempts, attempt, j, j + there);
        match recap_generation::first_fruitful(attempts, j, j + there) {
            Some(k) => {
                let longer: int = if more.len() - j < 5 {
                    more.len() - j
                } else {
                    5
                };
                lemma_later_fruit(more, j, j + there, j + longer);
                assert(more[k] == attempts[k]);
                lemma_advance_from(
                    slices,
                    attempts,
                    attempt,
                    i + 1,
                    k + 1,
                    summaries.push(recap_generation::attempt_summary(attempts[k])),
                    recap_generation::merged_trace(
                        trace,
                        recap_generation::attempt_trace(attempts[k]),
                    ),
                );
            },
            None => {
                if there < 5 {
                    lemma_last_fruit(more, j, j + there);
                    assert(more[j + there] == attempt);
                    if came_back(attempt) {
                        let k = j + there;
                        let next = summaries.push(recap_generation::attempt_summary(attempt));
                        let merged = recap_generation::merged_trace(
                            trace,
                            recap_generation::attempt_trace(attempt),
                        );
                        assert(recap_generation::slices_step(slices, more, i, j, summaries, trace)
                            == recap_generation::slices_step(
                            slices,
                            more,
                            i + 1,
                            k + 1,
                            next,
                            merged,
                        ));
                        assert(recap_generation::first_fruitful(more, k + 1, k + 1) is None);
                    }
                }
            },
        }
    }
}

/// The first slice is tried first, and a recap of no slices is done at once.
pub proof fn lemma_slices_start(slices: Seq<Seq<char>>)
    ensures
        slices.len() == 0 ==> after(slices, Seq::empty()) is Finished,
        slices.len() > 0 && !text::is_blank(slices[0]) ==> after(slices, Seq::empty())
            == (SlicesStepModel::Summarize { slice: 0, delayed: false }),
        slices.len() > 0 && text::is_blank(slices[0]) ==> after(slices, Seq::empty()) is Failed,
{
    let none = Seq::<AttemptModel>::empty();
    assert(recap_generation::first_fruitful(none, 0, 0) is None);
}

/// A slice is given up after five attempts in vain and not before.
pub proof fn lemma_five_attempts(slices: Seq<Seq<char>>, attempts: Seq<AttemptModel>)
    requires
        slices.len() > 0,
        !text::is_blank(slices[0]),
        forall|k: int| 0 <= k < attempts.len() ==> !came_back(#[trigger] attempts[k]),
    ensures
        attempts.len() < 5 ==> after(slices, attempts) == (SlicesStepModel::Summarize {
            slice: 0,
            delayed: attempts.len() > 0,
        }),
        attempts.len() == 5 ==> after(slices, attempts) is Failed,
{
    let there: int = if attempts.len() < 5 {
        attempts.len() as int
    } else {
        5
    };
    lemma_no_fruit(attempts, 0, there);
}

proof fn lemma_no_fruit(attempts: Seq<AttemptModel>, j: int, end: int)
    requires
        0 <= j <= end <= attempts.len(),
        forall|k: int| 0 <= k < attempts.len() ==> !came_back(#[trigger] attempts[k]),
    ensures
        recap_generation::first_fruitful(attempts, j, end) is None,
    decreases end - j,
{
    if j < end {
        assert(!came_back(attempts[j]));
        lemma_no_fruit(attempts, j + 1, end);
    }
}

/// The tokens of a recap are those of its attempts together, each kind on its own.
pub proof fn lemma_usage_adds_up(attempts: Seq<AttemptModel>, attempt: AttemptModel)
    ensures
        ({
            let n = attempts.len() as int;
            let before = recap_generation::total_usage(attempts, n);
            let now = recap_generation::total_usage(attempts.push(attempt), n + 1);
            match attempt {
                AttemptModel::Generated { usage, .. } => {
                    &&& now.0 == before.0 + usage.prompt_tokens
                    &&& now.1 == before.1 + usage.completion_tokens
                    &&& now.2 == before.2 + usage.total_tokens
                },
                AttemptModel::Failed { .. } => now == before,
            }
        }),
        recap_generation::total_usage(Seq::empty(), 0) == (0int, 0int, 0int),
{
    let n = attempts.len() as int;
    lemma_usage_prefix(attempts, attempt, n);
    assert(attempts.push(attempt)[n] == attempt);
}

proof fn lemma_usage_prefix(attempts: Seq<AttemptModel>, attempt: AttemptModel, n: int)
    requires
        0 <= n <= attempts.len(),
    ensures
        recap_generation::total_usage(attempts.push(attempt), n) == recap_generation::total_usage(
            attempts,
            n,
        ),
    decreases n,
{
    if n > 0 {
        lemma_usage_prefix(attempts, attempt, n - 1);
        assert(attempts.push(attempt)[n - 1] == attempts[n - 1]);
    }
}

/// The budget of a slice is what the reserve leaves of the limit.
pub proof fn lemma_budget_leaves_the_reserve(recap: RecapModel)
    ensures
        match recap_generation::budget_of(recap) {
            Ok(budget) => budget > 0 && budget + recap.recap_reserve == recap.token_limit,
            Err(BudgetError::NotPositive) => recap.token_limit <= recap.recap_reserve
                || recap.token_limit - recap.recap_reserve > i64::MAX,
            Err(BudgetError::TooLarge) => recap.token_limit - recap.recap_reserve > usize::MAX,
        },
{
}

// ---------------------------------------------------------------------------
// What is kept
// ---------------------------------------------------------------------------

/// What a model wrote is freed of its links, its HTML, its addresses and its mentions, in
/// that order, before it is restyled, and only then are the markers of the recap resolved.
pub proof fn lemma_summaries_are_defused_first(
    raw: Seq<char>,
    chat_id: int,
    chat_type: Seq<char>,
    numbers: Map<i64, i64>,
)
    ensures
        ({
            let plain = rich_recap::normalized(raw);
            let unlinked = patterns::regex_replaced_all(
                patterns::INLINE_LINK_PATTERN@,
                plain,
                "$1"@,
            );
            let untagged = patterns::regex_replaced_all(
                patterns::HTML_TAG_PATTERN@,
                unlinked,
                ""@,
            );
            let unaddressed = patterns::regex_replaced_all(
                patterns::BARE_URL_PATTERN@,
                untagged,
                ""@,
            );
            let unmentioned = patterns::regex_replaced_all(
                patterns::MENTION_PATTERN@,
                unaddressed,
                "${1}${2}"@,
            );
            let clean = rich_recap::styled(unmentioned, RecapStyle::Detailed);
            recap_generation::kept_summary(raw, chat_id, chat_type, numbers) == text::trimmed(
                rich_recap::resolved_from(
                    clean,
                    patterns::regex_captures(patterns::REFERENCE_PATTERN@, clean),
                    chat_id,
                    chat_type,
                    numbers,
                    0,
                    0,
                ),
            )
        }),
{
}

/// The answers are kept in order and one by one: one more answer adds what is kept of it,
/// if anything is, and changes nothing before it.
pub proof fn lemma_summaries_are_kept_in_order(
    raw: Seq<Seq<char>>,
    more: Seq<char>,
    chat_id: int,
    chat_type: Seq<char>,
    numbers: Map<i64, i64>,
)
    ensures
        ({
            let before = recap_generation::kept_summaries(raw, 0, chat_id, chat_type, numbers);
            let now = recap_generation::kept_summaries(
                raw.push(more),
                0,
                chat_id,
                chat_type,
                numbers,
            );
            let kept = recap_generation::kept_summary(more, chat_id, chat_type, numbers);
            &&& kept.len() == 0 ==> now == before
            &&& kept.len() > 0 ==> now == before.push(kept)
        }),
        recap_generation::kept_summaries(Seq::empty(), 0, chat_id, chat_type, numbers).len() == 0,
{
    lemma_kept_from(raw, more, 0, chat_id, chat_type, numbers);
}

proof fn lemma_kept_from(
    raw: Seq<Seq<char>>,
    more: Seq<char>,
    i: int,
    chat_id: int,
    chat_type: Seq<char>,
    numbers: Map<i64, i64>,
)
    requires
        0 <= i <= raw.len(),
    ensures
        ({
            let before = recap_generation::kept_summaries(raw, i, chat_id, chat_type, numbers);
            let now = recap_generation::kept_summaries(
                raw.push(more),
                i,
                chat_id,
                chat_type,
                numbers,
            );
            let kept = recap_generation::kept_summary(more, chat_id, chat_type, numbers);
            &&& kept.len() == 0 ==> now == before
            &&& kept.len() > 0 ==> now == before.push(kept)
        }),
    decreases raw.len() - i,
{
    let longer = raw.push(more);
    let kept = recap_generation::kept_summary(more, chat_id, chat_type, numbers);
    let before = recap_generation::kept_summaries(raw, i, chat_id, chat_type, numbers);
    let now = recap_generation::kept_summaries(longer, i, chat_id, chat_type, numbers);
    if i < raw.len() {
        assert(longer[i] == raw[i]);
        lemma_kept_from(raw, more, i + 1, chat_id, chat_type, numbers);
    } else {
        assert(longer[i] == more);
        assert(recap_generation::kept_summaries(longer, i + 1, chat_id, chat_type, numbers)
            =~= Seq::<Seq<char>>::empty());
    }
    if kept.len() == 0 {
        assert(now =~= before);
    } else {
        assert(now =~= before.push(kept));
    }
}

/// A recap is logged under the model that wrote it: the backup where that succeeded, else
/// the primary one.
pub proof fn lemma_logged_model(configured: Seq<char>, trace: GenerationTrace)
    ensures
        trace.backup_used && trace.backup_succeeded && trace.backup_used_model.len() > 0
            ==> recap_generation::logged_model(configured, trace) == trace.backup_used_model,
        !(trace.backup_used && trace.backup_succeeded) && trace.primary_used_model.len() > 0
            ==> recap_generation::logged_model(configured, trace) == trace.primary_used_model,
        !(trace.backup_used && trace.backup_succeeded) && trace.primary_used_model.len() == 0
            ==> recap_generation::logged_model(configured, trace) == configured,
        trace.backup_used && trace.backup_succeeded && trace.backup_used_model.len() == 0
            && trace.backup_model.len() > 0 ==> recap_generation::logged_model(configured, trace)
            == trace.backup_model,
{
}

} // verus!
