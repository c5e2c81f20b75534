//! Detailed recaps over token slices: what the models read, how often a slice is tried,
//! and what comes out of it.

use std::collections::HashMap;

use vstd::prelude::*;

use crate::config::{RecapModel, RecapOpenAiConfig};
use crate::db::models::{TelegramChatHistory, TokenUsage};
use crate::numeral::{self, format_i64, format_u64};
use crate::services::completion::{ModelsModel, RecapModels};
use crate::services::condensed::{
    self, sarcastic_condense_step, CondensedEvent, CondensedGenerationError, CondensedStep,
    CondensedStepModel, EventModel,
};
use crate::services::detailed::{self, DetailedGenerationError, DetailedSliceResult};
use crate::services::patterns;
use crate::services::rich_recap::{
    self, resolve_rich_recap_references, sanitize_detailed_recap_markdown, RecapStyle,
};
use crate::services::traces::{
    self, CondensedExecutionTrace, GenerationModelExecutionTrace, GenerationTrace,
    RecapExecutionTrace,
};
use crate::text;

verus! {

broadcast use vstd::std_specs::hash::group_hash_axioms;

/// How often one slice is tried.
pub const DETAILED_SLICE_ATTEMPTS: usize = 5;

/// Seconds between two attempts at one slice.
pub const DETAILED_SLICE_RETRY_DELAY_SECONDS: u64 = 1;

pub const EMPTY_RECAP_MESSAGE: &'static str = "recap model returned empty Rich Markdown";

// ---------------------------------------------------------------------------
// Results
// ---------------------------------------------------------------------------

/// Why there is no detailed recap: the text of the error, the tokens that were used all
/// the same, and what was tried.
#[derive(Debug, PartialEq, Eq)]
pub struct DetailedRecapGenerationError {
    pub source: String,
    pub usage: TokenUsage,
    pub trace: RecapExecutionTrace,
}

/// The detailed recap of a group, once it is logged.
#[derive(Debug, PartialEq, Eq)]
pub struct GroupDetailedRecap {
    pub log_id: String,
    pub recap_inputs: String,
    pub summaries: Vec<String>,
    pub usage: TokenUsage,
    pub trace: RecapExecutionTrace,
}

/// The detailed recap of privately forwarded messages, once it is logged.
#[derive(Debug, PartialEq, Eq)]
pub struct PrivateForwardedDetailedRecap {
    pub recap_inputs: String,
    pub summaries: Vec<String>,
    pub usage: TokenUsage,
    pub trace: RecapExecutionTrace,
}

// ---------------------------------------------------------------------------
// What the models read
// ---------------------------------------------------------------------------

/// A sender in a prompt: the full name without `#`, unless it is long and there is a
/// username.
pub open spec fn prompt_name(full_name: Seq<char>, username: Seq<char>) -> Seq<char> {
    if full_name.len() >= 10 && username.len() > 0 {
        username
    } else {
        text::replaced(full_name, "#"@, ""@)
    }
}

fn format_full_name_and_username(full_name: &str, username: &str) -> (out: String)
    ensures
        out@ == prompt_name(full_name@, username@),
{
    proof {
        reveal_strlit("#");
    }
    if full_name.unicode_len() >= 10 && username.unicode_len() > 0 {
        username.to_owned()
    } else {
        text::replace(full_name, "#", "")
    }
}

/// What of a group message a prompt shows.
#[verifier::ext_equal]
pub struct GroupMessage {
    pub message_id: i64,
    pub full_name: Seq<char>,
    pub username: Seq<char>,
    pub text: Seq<char>,
    pub replied_to_message_id: i64,
    pub replied_to_full_name: Seq<char>,
    pub replied_to_username: Seq<char>,
}

pub open spec fn group_message(history: TelegramChatHistory) -> GroupMessage {
    GroupMessage {
        message_id: history.message_id,
        full_name: history.full_name@,
        username: history.username@,
        text: history.text@,
        replied_to_message_id: history.replied_to_message_id,
        replied_to_full_name: history.replied_to_full_name@,
        replied_to_username: history.replied_to_username@,
    }
}

pub open spec fn group_messages(histories: Seq<TelegramChatHistory>) -> Seq<GroupMessage> {
    Seq::new(histories.len(), |i: int| group_message(histories[i]))
}

/// The identifiers that one message brings into a prompt: its own, and that of the
/// message it replies to.
pub open spec fn ids_of(message: GroupMessage) -> Seq<i64> {
    if message.replied_to_message_id == 0 {
        seq![message.message_id]
    } else {
        seq![message.message_id, message.replied_to_message_id]
    }
}

/// The identifiers of the first `n` messages, in the order of their mention.
pub open spec fn mentioned(messages: Seq<GroupMessage>, n: int) -> Seq<i64>
    decreases n,
{
    if n <= 0 || n > messages.len() {
        Seq::empty()
    } else {
        mentioned(messages, n - 1) + ids_of(messages[n - 1])
    }
}

/// The line of a message whose first identifier is shown as `number`.
pub open spec fn prompt_line(message: GroupMessage, number: int) -> Seq<char> {
    let sender = prompt_name(message.full_name, message.username);
    if message.replied_to_message_id == 0 {
        "msgId:"@ + numeral::decimal(number) + ": "@ + sender + " sent: "@ + message.text
    } else {
        "msgId:"@ + numeral::decimal(number) + ": "@ + sender + " replying to ["@ + prompt_name(
            message.replied_to_full_name,
            message.replied_to_username,
        ) + " sent msgId:"@ + numeral::decimal(number + 1) + "]: "@ + message.text
    }
}

/// The lines of all messages: identifiers are numbered from 1 in order of mention.
pub open spec fn prompt_lines(messages: Seq<GroupMessage>) -> Seq<Seq<char>> {
    Seq::new(
        messages.len(),
        |i: int| prompt_line(messages[i], mentioned(messages, i).len() as int + 1),
    )
}

/// The identifiers by their numbers, from 1 on.
pub open spec fn numbered(ids: Seq<i64>) -> Map<i64, i64> {
    Map::new(|k: i64| 1 <= k <= ids.len(), |k: i64| ids[k - 1])
}

proof fn lemma_mentioned_bound(messages: Seq<GroupMessage>, n: int)
    requires
        0 <= n <= messages.len(),
    ensures
        n <= mentioned(messages, n).len() <= 2 * n,
    decreases n,
{
    if n > 0 {
        lemma_mentioned_bound(messages, n - 1);
    }
}

/// The detailed prompt of a group, and the identifier behind every number in it.
pub fn build_rich_recap_prompt(histories: &Vec<TelegramChatHistory>) -> (r: (
    String,
    HashMap<i64, i64>,
))
    requires
        2 * histories.len() < i64::MAX,
    ensures
        r.0@ == text::join_spec(prompt_lines(group_messages(histories@)), "\n"@),
        r.1@ == numbered(
            mentioned(group_messages(histories@), histories@.len() as int),
        ),
{
    let ghost all = group_messages(histories@);
    let ghost wanted = prompt_lines(all);
    let mut lines: Vec<String> = Vec::new();
    let mut virtual_to_real: HashMap<i64, i64> = HashMap::new();
    let mut next: i64 = 1;
    let mut i: usize = 0;
    assert(virtual_to_real@ =~= numbered(mentioned(all, 0)));
    while i < histories.len()
        invariant
            i <= histories.len(),
            2 * histories.len() < i64::MAX,
            all == group_messages(histories@),
            wanted == prompt_lines(all),
            lines.len() == i,
            next == mentioned(all, i as int).len() + 1,
            virtual_to_real@ == numbered(mentioned(all, i as int)),
            forall|k: int| 0 <= k < i ==> (#[trigger] lines@[k])@ == wanted[k],
        decreases histories.len() - i,
    {
        let history: &TelegramChatHistory = &histories[i];
        let ghost before = mentioned(all, i as int);
        proof {
            lemma_mentioned_bound(all, i as int);
            assert(all[i as int] == group_message(*history));
        }
        let number: String = format_i64(next);
        let sender: String = format_full_name_and_username(
            history.full_name.as_str(),
            history.username.as_str(),
        );
        virtual_to_real.insert(next, history.message_id);
        next = next + 1;
        let mut line: String = text::joined3("msgId:", number.as_str(), ": ");
        line.append(sender.as_str());
        if history.replied_to_message_id == 0 {
            line.append(" sent: ");
        } else {
            let reply_number: String = format_i64(next);
            virtual_to_real.insert(next, history.replied_to_message_id);
            next = next + 1;
            let reply_sender: String = format_full_name_and_username(
                history.replied_to_full_name.as_str(),
                history.replied_to_username.as_str(),
            );
            line.append(" replying to [");
            line.append(reply_sender.as_str());
            line.append(" sent msgId:");
            line.append(reply_number.as_str());
            line.append("]: ");
        }
        line.append(history.text.as_str());
        assert(line@ =~= wanted[i as int]);
        lines.push(line);
        i = i + 1;
        assert(virtual_to_real@ =~= numbered(mentioned(all, i as int)));
    }
    assert(text::texts(lines@) =~= wanted);
    (text::join(&lines, "\n"), virtual_to_real)
}

/// Every message of a prompt is found again behind its number, and so is the message
/// that it replies to.
pub proof fn lemma_numbers_resolve(messages: Seq<GroupMessage>, i: int)
    requires
        0 <= i < messages.len(),
        2 * messages.len() < i64::MAX,
    ensures
        ({
            let number = mentioned(messages, i).len() as int + 1;
            let all = numbered(mentioned(messages, messages.len() as int));
            &&& all.contains_key(number as i64) && all[number as i64] == messages[i].message_id
            &&& messages[i].replied_to_message_id != 0 ==> all.contains_key((number + 1) as i64)
                && all[(number + 1) as i64] == messages[i].replied_to_message_id
        }),
{
    lemma_mentioned_prefix(messages, i + 1, messages.len() as int);
    lemma_mentioned_bound(messages, messages.len() as int);
    let front = mentioned(messages, i + 1);
    let whole = mentioned(messages, messages.len() as int);
    let at = mentioned(messages, i).len() as int;
    assert(front[at] == messages[i].message_id);
    assert(whole[at] == front[at]);
    if messages[i].replied_to_message_id != 0 {
        assert(front[at + 1] == messages[i].replied_to_message_id);
        assert(whole[at + 1] == front[at + 1]);
    }
}

proof fn lemma_mentioned_prefix(messages: Seq<GroupMessage>, m: int, n: int)
    requires
        0 <= m <= n <= messages.len(),
    ensures
        mentioned(messages, m).len() <= mentioned(messages, n).len(),
        forall|k: int|
            0 <= k < mentioned(messages, m).len() ==> #[trigger] mentioned(messages, n)[k]
                == mentioned(messages, m)[k],
    decreases n - m,
{
    if m < n {
        lemma_mentioned_prefix(messages, m, n - 1);
    }
}

/// One privately forwarded message, ready to be replayed.
#[derive(Debug, PartialEq, Eq)]
pub struct PrivateForwardedReplayChatHistory {
    pub message_id: i64,
    pub actor_display_name: String,
    pub actor_username: String,
    pub text: String,
}

pub open spec fn forwarded_line(history: PrivateForwardedReplayChatHistory) -> Seq<char> {
    "msgId:"@ + numeral::decimal(history.message_id as int) + ": "@ + prompt_name(
        history.actor_display_name@,
        history.actor_username@,
    ) + " sent: "@ + history.text@
}

pub open spec fn forwarded_lines(histories: Seq<PrivateForwardedReplayChatHistory>) -> Seq<
    Seq<char>,
> {
    Seq::new(histories.len(), |i: int| forwarded_line(histories[i]))
}

/// The detailed prompt of privately forwarded messages, with their own identifiers.
pub fn build_private_forwarded_recap_prompt(
    histories: &Vec<PrivateForwardedReplayChatHistory>,
) -> (out: String)
    ensures
        out@ == text::join_spec(forwarded_lines(histories@), "\n"@),
{
    let ghost wanted = forwarded_lines(histories@);
    let mut lines: Vec<String> = Vec::new();
    let mut i: usize = 0;
    while i < histories.len()
        invariant
            i <= histories.len(),
            lines.len() == i,
            wanted == forwarded_lines(histories@),
            forall|k: int| 0 <= k < i ==> (#[trigger] lines@[k])@ == wanted[k],
        decreases histories.len() - i,
    {
        let history: &PrivateForwardedReplayChatHistory = &histories[i];
        let number: String = format_i64(history.message_id);
        let sender: String = format_full_name_and_username(
            history.actor_display_name.as_str(),
            history.actor_username.as_str(),
        );
        let mut line: String = text::joined3("msgId:", number.as_str(), ": ");
        line.append(sender.as_str());
        line.append(" sent: ");
        line.append(history.text.as_str());
        assert(line@ =~= wanted[i as int]);
        lines.push(line);
        i = i + 1;
    }
    assert(text::texts(lines@) =~= wanted);
    text::join(&lines, "\n")
}

/// The name that a condensed transcript shows.
pub open spec fn condensed_name(message: GroupMessage) -> Seq<char> {
    if message.full_name.len() > 0 {
        message.full_name
    } else if message.username.len() > 0 {
        message.username
    } else {
        "未知用戶"@
    }
}

/// The condensed transcript from message `i` on: messages without text are left out, and
/// the others keep their place in the count.
pub open spec fn condensed_history(messages: Seq<GroupMessage>, i: int) -> Seq<char>
    decreases messages.len() - i,
{
    if i < 0 || i >= messages.len() {
        Seq::empty()
    } else if messages[i].text.len() == 0 {
        condensed_history(messages, i + 1)
    } else {
        "["@ + numeral::decimal(i + 1) + "] "@ + condensed_name(messages[i]) + ": "@
            + messages[i].text + "\n"@ + condensed_history(messages, i + 1)
    }
}

/// The condensed transcript of a group.
pub fn build_condensed_history(histories: &Vec<TelegramChatHistory>) -> (out: String)
    ensures
        out@ == condensed_history(group_messages(histories@), 0),
{
    let ghost all = group_messages(histories@);
    let mut out: String = String::new();
    let mut i: usize = 0;
    assert(out@ + condensed_history(all, 0) =~= condensed_history(all, 0));
    while i < histories.len()
        invariant
            i <= histories.len(),
            all == group_messages(histories@),
            out@ + condensed_history(all, i as int) == condensed_history(all, 0),
        decreases histories.len() - i,
    {
        let ghost before = out@;
        let ghost rest = condensed_history(all, i as int);
        let history: &TelegramChatHistory = &histories[i];
        assert(all[i as int] == group_message(*history));
        if history.text.as_str().unicode_len() > 0 {
            let name: &str = if history.full_name.as_str().unicode_len() > 0 {
                history.full_name.as_str()
            } else if history.username.as_str().unicode_len() > 0 {
                history.username.as_str()
            } else {
                "未知用戶"
            };
            let number: String = format_u64((i + 1) as u64);
            out.append("[");
            out.append(number.as_str());
            out.append("] ");
            out.append(name);
            out.append(": ");
            out.append(history.text.as_str());
            out.append("\n");
        }
        i = i + 1;
        assert(out@ + condensed_history(all, i as int) =~= before + rest);
    }
    assert(out@ =~= condensed_history(all, 0));
    out
}

/// Why no condensed recap is tried at all.
pub const NO_CHAT_HISTORIES: &'static str = "no chat histories";

pub const NO_CHAT_HISTORY_TEXT: &'static str = "no chat history text";

/// What to do next for the condensed recap of a transcript: a blank one is not condensed.
pub open spec fn condense_text(
    models: ModelsModel,
    chat_history: Seq<char>,
    events: Seq<EventModel>,
) -> CondensedStepModel {
    if text::is_blank(chat_history) {
        CondensedStepModel::Failed {
            source: NO_CHAT_HISTORY_TEXT@,
            trace: traces::blank_condensed(),
        }
    } else {
        condensed::condensed_step(models, chat_history, events)
    }
}

/// What to do next for the condensed recap of a group: without messages there is none.
pub open spec fn condense_group(
    models: ModelsModel,
    histories: Seq<GroupMessage>,
    events: Seq<EventModel>,
) -> CondensedStepModel {
    if histories.len() == 0 {
        CondensedStepModel::Failed {
            source: NO_CHAT_HISTORIES@,
            trace: traces::blank_condensed(),
        }
    } else {
        condense_text(models, condensed_history(histories, 0), events)
    }
}

fn nothing_to_condense(source: &'static str) -> (step: CondensedStep)
    ensures
        step@ == (CondensedStepModel::Failed {
            source: source@,
            trace: traces::blank_condensed(),
        }),
{
    CondensedStep::Failed(
        CondensedGenerationError {
            source: source.to_owned(),
            trace: CondensedExecutionTrace::default(),
        },
    )
}

/// What to do next for the condensed recap of a transcript, given all that came back so
/// far.
pub fn generate_condensed_from_text_step(
    models: &RecapModels,
    chat_history: &str,
    events: &Vec<CondensedEvent>,
) -> (step: CondensedStep)
    ensures
        step@ == condense_text(models@, chat_history@, condensed::events_model(events@)),
{
    if text::blank(chat_history) {
        return nothing_to_condense(NO_CHAT_HISTORY_TEXT);
    }
    sarcastic_condense_step(models, chat_history, events)
}

/// What to do next for the condensed recap of a group, given all that came back so far.
pub fn generate_condensed_step(
    models: &RecapModels,
    histories: &Vec<TelegramChatHistory>,
    events: &Vec<CondensedEvent>,
) -> (step: CondensedStep)
    ensures
        step@ == condense_group(
            models@,
            group_messages(histories@),
            condensed::events_model(events@),
        ),
{
    if histories.len() == 0 {
        return nothing_to_condense(NO_CHAT_HISTORIES);
    }
    let transcript: String = build_condensed_history(histories);
    generate_condensed_from_text_step(models, transcript.as_str(), events)
}

// ---------------------------------------------------------------------------
// Merging traces
// ---------------------------------------------------------------------------

/// Merge one text of a trace into another: new values are added behind a comma.
pub open spec fn merged_text(current: Seq<char>, incoming: Seq<char>) -> Seq<char> {
    let added = text::trimmed(incoming);
    if added.len() == 0 {
        current
    } else if text::is_blank(current) {
        added
    } else if text::cut_from(current, ", "@, 0, 0).contains(added) {
        current
    } else {
        current + ", "@ + added
    }
}

pub open spec fn merged_trace(
    current: GenerationTrace,
    incoming: GenerationTrace,
) -> GenerationTrace {
    GenerationTrace {
        primary_model: merged_text(current.primary_model, incoming.primary_model),
        primary_used_model: merged_text(
            current.primary_used_model,
            incoming.primary_used_model,
        ),
        primary_failed: current.primary_failed || incoming.primary_failed,
        primary_failure_reason: merged_text(
            current.primary_failure_reason,
            incoming.primary_failure_reason,
        ),
        backup_model: merged_text(current.backup_model, incoming.backup_model),
        backup_used: current.backup_used || incoming.backup_used,
        backup_used_model: merged_text(current.backup_used_model, incoming.backup_used_model),
        backup_succeeded: current.backup_succeeded || incoming.backup_succeeded,
        backup_failure_reason: merged_text(
            current.backup_failure_reason,
            incoming.backup_failure_reason,
        ),
    }
}

fn merge_unique_trace_text(current: &str, incoming: &str) -> (out: String)
    ensures
        out@ == merged_text(current@, incoming@),
{
    proof {
        reveal_strlit(", ");
    }
    let added: String = text::trim(incoming);
    if added.as_str().unicode_len() == 0 {
        return current.to_owned();
    }
    if text::blank(current) {
        return added;
    }
    let pieces: Vec<String> = text::split_text(current, ", ");
    let ghost all = text::texts(pieces@);
    let mut i: usize = 0;
    while i < pieces.len()
        invariant
            i <= pieces.len(),
            all == text::texts(pieces@),
            all == text::cut_from(current@, ", "@, 0, 0),
            added@ == text::trimmed(incoming@),
            added@.len() > 0,
            !text::is_blank(current@),
            forall|k: int| 0 <= k < i ==> all[k] != added@,
        decreases pieces.len() - i,
    {
        assert(all[i as int] == pieces@[i as int]@);
        if text::same(pieces[i].as_str(), added.as_str()) {
            assert(all.contains(added@));
            return current.to_owned();
        }
        i = i + 1;
    }
    text::joined3(current, ", ", added.as_str())
}

/// Merge the trace of one slice into that of the whole recap.
pub fn merge_recap_execution_trace(
    destination: &mut RecapExecutionTrace,
    source: &RecapExecutionTrace,
)
    ensures
        final(destination)@ == merged_trace(old(destination)@, source@),
{
    let into: &GenerationModelExecutionTrace = &destination.generation;
    let from: &GenerationModelExecutionTrace = &source.generation;
    let merged = GenerationModelExecutionTrace {
        primary_model: merge_unique_trace_text(
            into.primary_model.as_str(),
            from.primary_model.as_str(),
        ),
        primary_used_model: merge_unique_trace_text(
            into.primary_used_model.as_str(),
            from.primary_used_model.as_str(),
        ),
        primary_failed: into.primary_failed || from.primary_failed,
        primary_failure_reason: merge_unique_trace_text(
            into.primary_failure_reason.as_str(),
            from.primary_failure_reason.as_str(),
        ),
        backup_model: merge_unique_trace_text(
            into.backup_model.as_str(),
            from.backup_model.as_str(),
        ),
        backup_used: into.backup_used || from.backup_used,
        backup_used_model: merge_unique_trace_text(
            into.backup_used_model.as_str(),
            from.backup_used_model.as_str(),
        ),
        backup_succeeded: into.backup_succeeded || from.backup_succeeded,
        backup_failure_reason: merge_unique_trace_text(
            into.backup_failure_reason.as_str(),
            from.backup_failure_reason.as_str(),
        ),
    };
    destination.generation = merged;
}

/// Whether a text is one value: nothing in it reads as two.
pub open spec fn one_value(s: Seq<char>) -> bool {
    !text::occurs(s, ", "@)
}

/// Whether every text of a trace is one value.
pub open spec fn single_valued(trace: GenerationTrace) -> bool {
    &&& one_value(trace.primary_model)
    &&& one_value(trace.primary_used_model)
    &&& one_value(trace.primary_failure_reason)
    &&& one_value(trace.backup_model)
    &&& one_value(trace.backup_used_model)
    &&& one_value(trace.backup_failure_reason)
}

proof fn lemma_uncut(s: Seq<char>, separator: Seq<char>, start: int, i: int)
    requires
        0 <= start <= i <= s.len(),
        forall|k: int| i <= k < s.len() ==> !text::matches_at(s, separator, k),
    ensures
        text::cut_from(s, separator, start, i) == seq![s.subrange(start, s.len() as int)],
    decreases s.len() - i,
{
    if i < s.len() {
        lemma_uncut(s, separator, start, i + 1);
    }
}

/// The pieces behind a comma and a space are pieces of the whole.
proof fn lemma_later_pieces(s: Seq<char>, start: int, i: int, p: int, piece: Seq<char>)
    requires
        0 <= start <= i <= p < s.len(),
        text::matches_at(s, ", "@, p),
        text::cut_from(s, ", "@, p + 2, p + 2).contains(piece),
    ensures
        text::cut_from(s, ", "@, start, i).contains(piece),
    decreases p - i,
{
    reveal_strlit(", ");
    assert(s.subrange(p, p + 2)[0] == s[p] && s.subrange(p, p + 2)[1] == s[p + 1]);
    if text::matches_at(s, ", "@, i) {
        assert(s.subrange(i, i + 2)[0] == s[i] && s.subrange(i, i + 2)[1] == s[i + 1]);
        let rest = text::cut_from(s, ", "@, i + 2, i + 2);
        if i < p {
            lemma_later_pieces(s, i + 2, i + 2, p, piece);
        }
        let k = choose|k: int| 0 <= k < rest.len() && rest[k] == piece;
        let all = text::cut_from(s, ", "@, start, i);
        assert(all == seq![s.subrange(start, i)] + rest);
        assert(all[k + 1] == piece);
    } else {
        lemma_later_pieces(s, start, i + 1, p, piece);
    }
}

/// A blank text merges into nothing, nor does one that is there already; a new one comes
/// trimmed, behind a comma where there is something before it.
pub proof fn lemma_merged_text(current: Seq<char>, incoming: Seq<char>)
    ensures
        text::is_blank(incoming) ==> merged_text(current, incoming) == current,
        !text::is_blank(incoming) && text::is_blank(current) ==> merged_text(current, incoming)
            == text::trimmed(incoming),
        !text::is_blank(current) && text::cut_from(current, ", "@, 0, 0).contains(
            text::trimmed(incoming),
        ) ==> merged_text(current, incoming) == current,
        !text::is_blank(incoming) && !text::is_blank(current) && !text::cut_from(
            current,
            ", "@,
            0,
            0,
        ).contains(text::trimmed(incoming)) ==> merged_text(current, incoming) == current + ", "@
            + text::trimmed(incoming),
{
}

proof fn lemma_merged_again(current: Seq<char>, incoming: Seq<char>)
    requires
        one_value(incoming),
    ensures
        merged_text(merged_text(current, incoming), incoming) == merged_text(current, incoming),
{
    reveal_strlit(", ");
    let added = text::trimmed(incoming);
    let (a, b) = text::lemma_trimmed_shape(incoming);
    assert forall|k: int| !text::matches_at(added, ", "@, k) by {
        if text::matches_at(added, ", "@, k) {
            assert(incoming.subrange(a + k, a + k + 2) =~= added.subrange(k, k + 2));
            assert(text::matches_at(incoming, ", "@, a + k));
        }
    }
    text::lemma_trim_idempotent(incoming);
    if added.len() > 0 {
        if text::is_blank(current) {
            lemma_uncut(added, ", "@, 0, 0);
            assert(added.subrange(0, added.len() as int) =~= added);
            assert(text::cut_from(added, ", "@, 0, 0)[0] == added);
        } else if !text::cut_from(current, ", "@, 0, 0).contains(added) {
            let s = current + ", "@ + added;
            let p = current.len() as int;
            assert(s.subrange(p, p + 2) =~= ", "@);
            assert forall|k: int| p + 2 <= k < s.len() implies !text::matches_at(s, ", "@, k) by {
                if text::matches_at(s, ", "@, k) {
                    assert(added.subrange(k - p - 2, k - p) =~= s.subrange(k, k + 2));
                    assert(text::matches_at(added, ", "@, k - p - 2));
                }
            }
            lemma_uncut(s, ", "@, p + 2, p + 2);
            assert(s.subrange(p + 2, s.len() as int) =~= added);
            assert(text::cut_from(s, ", "@, p + 2, p + 2)[0] == added);
            lemma_later_pieces(s, 0, 0, p, added);
            assert(!text::is_white(s[p + 2])) by {
                assert(s[p + 2] == added[0] && added[0] == incoming[a]);
            }
            let (c, d) = text::lemma_trimmed_shape(s);
        }
    }
}

/// Flags are joined, and merging a trace once more changes nothing, where each of its
/// texts is one value.
pub proof fn lemma_merged_once(current: GenerationTrace, source: GenerationTrace)
    requires
        single_valued(source),
    ensures
        merged_trace(merged_trace(current, source), source) == merged_trace(current, source),
        merged_trace(current, source).primary_failed == (current.primary_failed
            || source.primary_failed),
        merged_trace(current, source).backup_used == (current.backup_used || source.backup_used),
        merged_trace(current, source).backup_succeeded == (current.backup_succeeded
            || source.backup_succeeded),
{
    lemma_merged_again(current.primary_model, source.primary_model);
    lemma_merged_again(current.primary_used_model, source.primary_used_model);
    lemma_merged_again(current.primary_failure_reason, source.primary_failure_reason);
    lemma_merged_again(current.backup_model, source.backup_model);
    lemma_merged_again(current.backup_used_model, source.backup_used_model);
    lemma_merged_again(current.backup_failure_reason, source.backup_failure_reason);
}

/// The model that a group recap is logged under.
pub open spec fn logged_model(configured: Seq<char>, trace: GenerationTrace) -> Seq<char> {
    if trace.backup_used && trace.backup_succeeded {
        if trace.backup_used_model.len() > 0 {
            trace.backup_used_model
        } else if trace.backup_model.len() > 0 {
            trace.backup_model
        } else {
            configured
        }
    } else if trace.primary_used_model.len() > 0 {
        trace.primary_used_model
    } else {
        configured
    }
}

pub fn resolved_group_model_name(configured_model: &str, trace: &RecapExecutionTrace) -> (out:
    String)
    ensures
        out@ == logged_model(configured_model@, trace@),
{
    let generation: &GenerationModelExecutionTrace = &trace.generation;
    if generation.backup_used && generation.backup_succeeded {
        if generation.backup_used_model.as_str().unicode_len() > 0 {
            return generation.backup_used_model.clone();
        }
        if generation.backup_model.as_str().unicode_len() > 0 {
            return generation.backup_model.clone();
        }
    } else if generation.primary_used_model.as_str().unicode_len() > 0 {
        return generation.primary_used_model.clone();
    }
    configured_model.to_owned()
}

// ---------------------------------------------------------------------------
// Slices and attempts
// ---------------------------------------------------------------------------

/// Why there is no token budget.
#[derive(Debug, Clone, Copy, PartialEq, Eq, Structural)]
pub enum BudgetError {
    NotPositive,
    TooLarge,
}

impl BudgetError {
    pub fn message(self) -> (out: &'static str)
        ensures
            out@ == match self {
                BudgetError::NotPositive => "recap token budget must be greater than zero"@,
                BudgetError::TooLarge => "recap token budget is too large"@,
            },
    {
        match self {
            BudgetError::NotPositive => "recap token budget must be greater than zero",
            BudgetError::TooLarge => "recap token budget is too large",
        }
    }
}

/// The tokens that one slice may have: the limit without the reserve.
pub open spec fn budget_of(recap: RecapModel) -> Result<int, BudgetError> {
    let budget = recap.token_limit - recap.recap_reserve;
    if budget <= 0 || budget > i64::MAX {
        Err(BudgetError::NotPositive)
    } else if budget > usize::MAX {
        Err(BudgetError::TooLarge)
    } else {
        Ok(budget)
    }
}

pub fn token_budget(config: &RecapOpenAiConfig) -> (r: Result<usize, BudgetError>)
    ensures
        match r {
            Ok(budget) => budget_of(config@) == Ok::<int, BudgetError>(budget as int),
            Err(error) => budget_of(config@) == Err::<int, BudgetError>(error),
        },
{
    let budget: i128 = config.token_limit as i128 - config.recap_reserve as i128;
    if budget <= 0 || budget > 9_223_372_036_854_775_807 {
        Err(BudgetError::NotPositive)
    } else if budget > usize::MAX as i128 {
        Err(BudgetError::TooLarge)
    } else {
        Ok(budget as usize)
    }
}

/// What one attempt at a slice came to.
#[derive(Debug, PartialEq, Eq)]
pub enum SliceAttempt {
    Generated(DetailedSliceResult),
    Failed(DetailedGenerationError),
}

pub enum AttemptModel {
    Generated { content: Seq<char>, usage: TokenUsage, trace: GenerationTrace },
    Failed { source: Seq<char>, trace: GenerationTrace },
}

impl View for SliceAttempt {
    type V = AttemptModel;

    open spec fn view(&self) -> AttemptModel {
        match *self {
            SliceAttempt::Generated(result) => AttemptModel::Generated {
                content: result.content@,
                usage: result.usage,
                trace: result.trace@,
            },
            SliceAttempt::Failed(error) => AttemptModel::Failed {
                source: error.source@,
                trace: error.trace@,
            },
        }
    }
}

pub open spec fn attempts_model(attempts: Seq<SliceAttempt>) -> Seq<AttemptModel> {
    Seq::new(attempts.len(), |i: int| attempts[i]@)
}

pub open spec fn attempt_trace(attempt: AttemptModel) -> GenerationTrace {
    match attempt {
        AttemptModel::Generated { trace, .. } => trace,
        AttemptModel::Failed { trace, .. } => trace,
    }
}

/// Whether an attempt gave a recap.
pub open spec fn fruitful(attempt: AttemptModel) -> bool {
    match attempt {
        AttemptModel::Generated { content, .. } => !text::is_blank(content),
        AttemptModel::Failed { .. } => false,
    }
}

pub open spec fn attempt_reason(attempt: AttemptModel) -> Seq<char> {
    match attempt {
        AttemptModel::Generated { .. } => EMPTY_RECAP_MESSAGE@,
        AttemptModel::Failed { source, .. } => source,
    }
}

pub open spec fn attempt_summary(attempt: AttemptModel) -> Seq<char> {
    match attempt {
        AttemptModel::Generated { content, .. } => text::trimmed(content),
        AttemptModel::Failed { .. } => Seq::empty(),
    }
}

/// The tokens of an attempt, none where it failed.
pub open spec fn attempt_usage(attempt: AttemptModel) -> (int, int, int) {
    match attempt {
        AttemptModel::Generated { usage, .. } => (
            usage.prompt_tokens as int,
            usage.completion_tokens as int,
            usage.total_tokens as int,
        ),
        AttemptModel::Failed { .. } => (0, 0, 0),
    }
}

/// The tokens of the first `n` attempts together.
pub open spec fn total_usage(attempts: Seq<AttemptModel>, n: int) -> (int, int, int)
    decreases n,
{
    if n <= 0 || n > attempts.len() {
        (0, 0, 0)
    } else {
        let before = total_usage(attempts, n - 1);
        let last = attempt_usage(attempts[n - 1]);
        (before.0 + last.0, before.1 + last.1, before.2 + last.2)
    }
}

pub open spec fn usage_value(total: (int, int, int)) -> TokenUsage {
    TokenUsage {
        prompt_tokens: total.0 as i64,
        completion_tokens: total.1 as i64,
        total_tokens: total.2 as i64,
    }
}

/// The first fruitful attempt at `j` or later, before `end`.
pub open spec fn first_fruitful(attempts: Seq<AttemptModel>, j: int, end: int) -> Option<int>
    decreases end - j,
{
    if j < 0 || j >= end || j >= attempts.len() {
        None
    } else if fruitful(attempts[j]) {
        Some(j)
    } else {
        first_fruitful(attempts, j + 1, end)
    }
}

/// What to do next for the slices of a recap.
#[derive(Debug, PartialEq, Eq)]
pub enum SlicesStep {
    /// Summarize the slice at this place, after a delay where it was tried before.
    Summarize { slice: usize, delayed: bool },
    Finished(Vec<String>, TokenUsage, RecapExecutionTrace),
    Failed(DetailedRecapGenerationError),
}

#[verifier::ext_equal]
pub enum SlicesStepModel {
    Summarize { slice: int, delayed: bool },
    Finished { summaries: Seq<Seq<char>>, usage: TokenUsage, trace: GenerationTrace },
    Failed { source: Seq<char>, usage: TokenUsage, trace: GenerationTrace },
}

impl View for SlicesStep {
    type V = SlicesStepModel;

    open spec fn view(&self) -> SlicesStepModel {
        match *self {
            SlicesStep::Summarize { slice, delayed } => SlicesStepModel::Summarize {
                slice: slice as int,
                delayed,
            },
            SlicesStep::Finished(summaries, usage, trace) => SlicesStepModel::Finished {
                summaries: text::texts(summaries@),
                usage,
                trace: trace@,
            },
            SlicesStep::Failed(error) => SlicesStepModel::Failed {
                source: error.source@,
                usage: error.usage,
                trace: error.trace@,
            },
        }
    }
}

/// Go on from slice `i` with the attempts from `j` on: each slice is tried up to five
/// times and its first fruitful attempt is taken; a slice without one ends it all.
pub open spec fn slices_step(
    slices: Seq<Seq<char>>,
    attempts: Seq<AttemptModel>,
    i: int,
    j: int,
    summaries: Seq<Seq<char>>,
    trace: GenerationTrace,
) -> SlicesStepModel
    decreases slices.len() - i,
{
    if i < 0 || i >= slices.len() {
        SlicesStepModel::Finished {
            summaries,
            usage: usage_value(total_usage(attempts, j)),
            trace,
        }
    } else if text::is_blank(slices[i]) {
        SlicesStepModel::Failed {
            source: EMPTY_RECAP_MESSAGE@,
            usage: usage_value(total_usage(attempts, j)),
            trace: merged_trace(trace, traces::blank_generation()),
        }
    } else {
        let there = detailed::smaller(attempts.len() - j, DETAILED_SLICE_ATTEMPTS as int);
        match first_fruitful(attempts, j, j + there) {
            Some(k) => slices_step(
                slices,
                attempts,
                i + 1,
                k + 1,
                summaries.push(attempt_summary(attempts[k])),
                merged_trace(trace, attempt_trace(attempts[k])),
            ),
            None => if there < DETAILED_SLICE_ATTEMPTS {
                SlicesStepModel::Summarize { slice: i, delayed: there > 0 }
            } else {
                let last = attempts[j + there - 1];
                SlicesStepModel::Failed {
                    source: attempt_reason(last),
                    usage: usage_value(total_usage(attempts, j + there)),
                    trace: merged_trace(trace, attempt_trace(last)),
                }
            },
        }
    }
}

/// Whether the tokens of every attempt are counts as completions report them.
pub open spec fn counted(attempts: Seq<AttemptModel>) -> bool {
    forall|i: int|
        0 <= i < attempts.len() ==> {
            let usage = attempt_usage(#[trigger] attempts[i]);
            0 <= usage.0 <= u32::MAX && 0 <= usage.1 <= u32::MAX && 0 <= usage.2 <= u32::MAX
        }
}

proof fn lemma_total_usage(attempts: Seq<AttemptModel>, n: int)
    requires
        counted(attempts),
        0 <= n <= attempts.len(),
    ensures
        ({
            let total = total_usage(attempts, n);
            0 <= total.0 <= n * u32::MAX && 0 <= total.1 <= n * u32::MAX && 0 <= total.2 <= n
                * u32::MAX
        }),
    decreases n,
{
    if n > 0 {
        lemma_total_usage(attempts, n - 1);
        let last = attempt_usage(attempts[n - 1]);
    }
}

fn usage_of_first(attempts: &Vec<SliceAttempt>, n: usize) -> (total: TokenUsage)
    requires
        n <= attempts.len(),
        attempts.len() <= 2_000_000_000,
        counted(attempts_model(attempts@)),
    ensures
        total == usage_value(total_usage(attempts_model(attempts@), n as int)),
{
    let ghost all = attempts_model(attempts@);
    let mut total = TokenUsage { prompt_tokens: 0, completion_tokens: 0, total_tokens: 0 };
    let mut i: usize = 0;
    while i < n
        invariant
            i <= n <= attempts.len(),
            attempts.len() <= 2_000_000_000,
            all == attempts_model(attempts@),
            counted(all),
            total.prompt_tokens == total_usage(all, i as int).0,
            total.completion_tokens == total_usage(all, i as int).1,
            total.total_tokens == total_usage(all, i as int).2,
        decreases n - i,
    {
        assert(all[i as int] == attempts@[i as int]@);
        proof {
            lemma_total_usage(all, i as int);
            lemma_total_usage(all, i + 1);
        }
        match &attempts[i] {
            SliceAttempt::Generated(result) => {
                total.prompt_tokens = total.prompt_tokens + result.usage.prompt_tokens;
                total.completion_tokens = total.completion_tokens + result.usage.completion_tokens;
                total.total_tokens = total.total_tokens + result.usage.total_tokens;
            },
            SliceAttempt::Failed(_) => {},
        }
        i = i + 1;
    }
    total
}

fn is_fruitful(attempt: &SliceAttempt) -> (r: bool)
    ensures
        r == fruitful(attempt@),
{
    match attempt {
        SliceAttempt::Generated(result) => !text::blank(result.content.as_str()),
        SliceAttempt::Failed(_) => false,
    }
}

fn merge_attempt(trace: &mut RecapExecutionTrace, attempt: &SliceAttempt)
    ensures
        final(trace)@ == merged_trace(old(trace)@, attempt_trace(attempt@)),
{
    match attempt {
        SliceAttempt::Generated(result) => merge_recap_execution_trace(trace, &result.trace),
        SliceAttempt::Failed(error) => merge_recap_execution_trace(trace, &error.trace),
    }
}

/// What to do next for the slices of a recap, given all attempts so far.
pub fn summarize_slices_step(slices: &Vec<String>, attempts: &Vec<SliceAttempt>) -> (step:
    SlicesStep)
    requires
        attempts.len() <= 2_000_000_000,
        counted(attempts_model(attempts@)),
    ensures
        step@ == slices_step(
            text::texts(slices@),
            attempts_model(attempts@),
            0,
            0,
            Seq::empty(),
            traces::blank_generation(),
        ),
{
    let ghost texts = text::texts(slices@);
    let ghost all = attempts_model(attempts@);
    let ghost wanted = slices_step(texts, all, 0, 0, Seq::empty(), traces::blank_generation());
    let mut summaries: Vec<String> = Vec::new();
    let mut trace = RecapExecutionTrace::default();
    let mut i: usize = 0;
    let mut j: usize = 0;
    assert(text::texts(summaries@) =~= Seq::<Seq<char>>::empty());
    while i < slices.len()
        invariant
            i <= slices.len(),
            j <= attempts.len(),
            attempts.len() <= 2_000_000_000,
            texts == text::texts(slices@),
            all == attempts_model(attempts@),
            counted(all),
            wanted == slices_step(texts, all, 0, 0, Seq::empty(), traces::blank_generation()),
            wanted == slices_step(
                texts,
                all,
                i as int,
                j as int,
                text::texts(summaries@),
                trace@,
            ),
        decreases slices.len() - i,
    {
        assert(texts[i as int] == slices@[i as int]@);
        if text::blank(slices[i].as_str()) {
            merge_recap_execution_trace(&mut trace, &RecapExecutionTrace::default());
            return SlicesStep::Failed(
                DetailedRecapGenerationError {
                    source: EMPTY_RECAP_MESSAGE.to_owned(),
                    usage: usage_of_first(attempts, j),
                    trace,
                },
            );
        }
        let left: usize = attempts.len() - j;
        let there: usize = if left <= DETAILED_SLICE_ATTEMPTS {
            left
        } else {
            DETAILED_SLICE_ATTEMPTS
        };
        let mut k: usize = j;
        while k < j + there && !is_fruitful(&attempts[k])
            invariant
                j <= k <= j + there <= attempts.len(),
                all == attempts_model(attempts@),
                first_fruitful(all, k as int, j + there) == first_fruitful(
                    all,
                    j as int,
                    j + there,
                ),
            decreases j + there - k,
        {
            assert(all[k as int] == attempts@[k as int]@);
            k = k + 1;
        }
        if k < j + there {
            assert(all[k as int] == attempts@[k as int]@);
            let ghost before = text::texts(summaries@);
            let summary: String = match &attempts[k] {
                SliceAttempt::Generated(result) => text::trim(result.content.as_str()),
                SliceAttempt::Failed(_) => String::new(),
            };
            summaries.push(summary);
            assert(text::texts(summaries@) =~= before.push(attempt_summary(all[k as int])));
            merge_attempt(&mut trace, &attempts[k]);
            j = k + 1;
            i = i + 1;
        } else if there < DETAILED_SLICE_ATTEMPTS {
            return SlicesStep::Summarize { slice: i, delayed: there > 0 };
        } else {
            let last: usize = j + there - 1;
            assert(all[last as int] == attempts@[last as int]@);
            let source: String = match &attempts[last] {
                SliceAttempt::Generated(_) => EMPTY_RECAP_MESSAGE.to_owned(),
                SliceAttempt::Failed(error) => error.source.clone(),
            };
            merge_attempt(&mut trace, &attempts[last]);
            return SlicesStep::Failed(
                DetailedRecapGenerationError {
                    source,
                    usage: usage_of_first(attempts, j + there),
                    trace,
                },
            );
        }
    }
    SlicesStep::Finished(summaries, usage_of_first(attempts, j), trace)
}

/// A recap is handed out only with one summary for every slice, none of them empty.
pub proof fn lemma_one_summary_per_slice(
    slices: Seq<Seq<char>>,
    attempts: Seq<AttemptModel>,
    i: int,
    j: int,
    summaries: Seq<Seq<char>>,
    trace: GenerationTrace,
)
    requires
        0 <= i <= slices.len(),
        0 <= j <= attempts.len(),
        summaries.len() == i,
        forall|k: int| 0 <= k < summaries.len() ==> (#[trigger] summaries[k]).len() > 0,
    ensures
        match slices_step(slices, attempts, i, j, summaries, trace) {
            SlicesStepModel::Finished { summaries, .. } => summaries.len() == slices.len()
                && forall|k: int|
                0 <= k < summaries.len() ==> (#[trigger] summaries[k]).len() > 0,
            _ => true,
        },
    decreases slices.len() - i,
{
    if i < slices.len() && !text::is_blank(slices[i]) {
        let there = detailed::smaller(attempts.len() - j, DETAILED_SLICE_ATTEMPTS as int);
        lemma_first_fruitful(attempts, j, j + there);
        match first_fruitful(attempts, j, j + there) {
            Some(k) => {
                let next = summaries.push(attempt_summary(attempts[k]));
                assert forall|m: int| 0 <= m < next.len()
                    implies (#[trigger] next[m]).len() > 0 by {
                    if m < summaries.len() {
                        assert(next[m] == summaries[m]);
                    }
                }
                lemma_one_summary_per_slice(
                    slices,
                    attempts,
                    i + 1,
                    k + 1,
                    next,
                    merged_trace(trace, attempt_trace(attempts[k])),
                );
            },
            None => {},
        }
    }
}

proof fn lemma_first_fruitful(attempts: Seq<AttemptModel>, j: int, end: int)
    requires
        0 <= j <= end <= attempts.len(),
    ensures
        match first_fruitful(attempts, j, end) {
            Some(k) => j <= k < end && fruitful(attempts[k]),
            None => true,
        },
    decreases end - j,
{
    if j < end && !fruitful(attempts[j]) {
        lemma_first_fruitful(attempts, j + 1, end);
    }
}

// ---------------------------------------------------------------------------
// What is kept of the summaries
// ---------------------------------------------------------------------------

/// A raw summary as it is kept: defused, restyled, with its markers resolved, trimmed.
pub open spec fn kept_summary(
    raw: Seq<char>,
    chat_id: int,
    chat_type: Seq<char>,
    virtual_to_real: Map<i64, i64>,
) -> Seq<char> {
    let clean = rich_recap::styled(rich_recap::defused(raw), RecapStyle::Detailed);
    text::trimmed(
        rich_recap::resolved_from(
            clean,
            patterns::regex_captures(patterns::REFERENCE_PATTERN@, clean),
            chat_id,
            chat_type,
            virtual_to_real,
            0,
            0,
        ),
    )
}

/// The raw summaries from `i` on as they are kept; those that come out empty are left
/// out.
pub open spec fn kept_summaries(
    raw: Seq<Seq<char>>,
    i: int,
    chat_id: int,
    chat_type: Seq<char>,
    virtual_to_real: Map<i64, i64>,
) -> Seq<Seq<char>>
    decreases raw.len() - i,
{
    if i < 0 || i >= raw.len() {
        Seq::empty()
    } else {
        let kept = kept_summary(raw[i], chat_id, chat_type, virtual_to_real);
        let rest = kept_summaries(raw, i + 1, chat_id, chat_type, virtual_to_real);
        if kept.len() == 0 {
            rest
        } else {
            seq![kept] + rest
        }
    }
}

/// The summaries of a recap as they are kept.
pub fn resolve_summaries(
    raw: &Vec<String>,
    chat_id: i64,
    chat_type: &str,
    virtual_to_real: &HashMap<i64, i64>,
) -> (out: Vec<String>)
    ensures
        text::texts(out@) == kept_summaries(
            text::texts(raw@),
            0,
            chat_id as int,
            chat_type@,
            virtual_to_real@,
        ),
{
    let ghost all = text::texts(raw@);
    let ghost wanted = kept_summaries(all, 0, chat_id as int, chat_type@, virtual_to_real@);
    let mut out: Vec<String> = Vec::new();
    let mut i: usize = 0;
    assert(text::texts(out@) + wanted =~= wanted);
    while i < raw.len()
        invariant
            i <= raw.len(),
            all == text::texts(raw@),
            wanted == kept_summaries(all, 0, chat_id as int, chat_type@, virtual_to_real@),
            text::texts(out@) + kept_summaries(
                all,
                i as int,
                chat_id as int,
                chat_type@,
                virtual_to_real@,
            ) == wanted,
        decreases raw.len() - i,
    {
        let ghost before = text::texts(out@);
        let ghost rest = kept_summaries(
            all,
            i as int,
            chat_id as int,
            chat_type@,
            virtual_to_real@,
        );
        assert(all[i as int] == raw@[i as int]@);
        let clean: String = sanitize_detailed_recap_markdown(raw[i].as_str());
        let resolved: String = resolve_rich_recap_references(
            clean.as_str(),
            chat_id,
            chat_type,
            virtual_to_real,
        );
        let kept: String = text::trim(resolved.as_str());
        if kept.as_str().unicode_len() > 0 {
            out.push(kept);
            assert(text::texts(out@) =~= before.push(kept@));
        }
        i = i + 1;
        assert(text::texts(out@) + kept_summaries(
            all,
            i as int,
            chat_id as int,
            chat_type@,
            virtual_to_real@,
        ) =~= before + rest);
    }
    assert(text::texts(out@) =~= wanted);
    out
}

/// The summaries of privately forwarded messages as they are kept: no marker resolves.
pub fn resolve_private_summaries(raw: &Vec<String>) -> (out: Vec<String>)
    ensures
        text::texts(out@) == kept_summaries(
            text::texts(raw@),
            0,
            0,
            "private"@,
            Map::empty(),
        ),
{
    let none: HashMap<i64, i64> = HashMap::new();
    assert(none@ =~= Map::<i64, i64>::empty());
    resolve_summaries(raw, 0, "private", &none)
}

/// The text that a group recap is logged with.
pub fn group_log_output(summaries: &Vec<String>) -> (out: String)
    ensures
        out@ == text::join_spec(text::texts(summaries@), "\n\n"@),
{
    text::join(summaries, "\n\n")
}

/// The text that a private recap is logged with.
pub fn private_log_output(summaries: &Vec<String>) -> (out: String)
    ensures
        out@ == text::join_spec(text::texts(summaries@), "\n"@),
{
    text::join(summaries, "\n")
}

} // verus!
