//! The condensed recap: one line from a primary model or its backups, repaired by a
//! check model where no output is in shape.

use vstd::prelude::*;

use crate::services::completion::{
    self, Ask, AskModel, CompletionReply, ModelsModel, Outcome, OutcomeModel, RecapModels,
    RecordModel, ReplyModel, UsageRecord,
};
use crate::services::detailed;
use crate::services::prompts;
use crate::services::traces::{
    self, CondensedExecutionTrace, CondensedTrace, ConditionalTrace, GenerationTrace,
};
use crate::text;

verus! {

// ---------------------------------------------------------------------------
// Output in shape
// ---------------------------------------------------------------------------

/// What `serde_json::from_str::<serde_json::Value>` makes of a text: none where it fails,
/// else whether the value is an object or an array.
pub uninterp spec fn json_shape(s: Seq<char>) -> Option<bool>;

/// `serde_json::from_str::<serde_json::Value>`: whether the text is JSON, and whether it
/// is an object or an array. The result is named and nothing more is claimed.
#[verifier::external_body]
pub(crate) fn parse_json(text: &str) -> (r: Option<bool>)
    ensures
        r == json_shape(text@),
{
    match serde_json::from_str::<serde_json::Value>(text) {
        Ok(serde_json::Value::Object(_)) => Some(true),
        Ok(serde_json::Value::Array(_)) => Some(true),
        Ok(_) => Some(false),
        Err(_) => None,
    }
}

/// Why an output is not in shape.
#[derive(Debug, Clone, Copy, PartialEq, Eq, Structural)]
pub enum CondensedFault {
    NoContent,
    CodeFence,
    JsonLike,
    NotSingleLine,
    Heading,
    ListItem,
}

pub open spec fn fault_message(fault: CondensedFault) -> Seq<char> {
    match fault {
        CondensedFault::NoContent => "no content generated"@,
        CondensedFault::CodeFence => "condensed output contains code fence"@,
        CondensedFault::JsonLike => "condensed output is json-like"@,
        CondensedFault::NotSingleLine => "condensed output is not a single line"@,
        CondensedFault::Heading => "condensed output contains a heading"@,
        CondensedFault::ListItem => "condensed output contains an unordered-list item"@,
    }
}

impl CondensedFault {
    pub fn message(self) -> (out: &'static str)
        ensures
            out@ == fault_message(self),
    {
        match self {
            CondensedFault::NoContent => "no content generated",
            CondensedFault::CodeFence => "condensed output contains code fence",
            CondensedFault::JsonLike => "condensed output is json-like",
            CondensedFault::NotSingleLine => "condensed output is not a single line",
            CondensedFault::Heading => "condensed output contains a heading",
            CondensedFault::ListItem => "condensed output contains an unordered-list item",
        }
    }
}

/// Whether a text stands in braces or in square brackets.
pub open spec fn bracketed(s: Seq<char>) -> bool {
    ("{"@.is_prefix_of(s) && "}"@.is_suffix_of(s)) || ("["@.is_prefix_of(s) && "]"@.is_suffix_of(s))
}

/// The lines from `i` on, trimmed, without the empty ones.
pub open spec fn filled_lines(lines: Seq<Seq<char>>, i: int) -> Seq<Seq<char>>
    decreases lines.len() - i,
{
    if i < 0 || i >= lines.len() {
        Seq::empty()
    } else if text::is_blank(lines[i]) {
        filled_lines(lines, i + 1)
    } else {
        seq![text::trimmed(lines[i])] + filled_lines(lines, i + 1)
    }
}

/// The lines of a text whose line breaks may be of any kind.
pub open spec fn output_lines(s: Seq<char>) -> Seq<Seq<char>> {
    filled_lines(
        text::lines_spec(
            text::replaced(text::replaced(s, "\r\n"@, "\n"@), "\r"@, "\n"@),
        ),
        0,
    )
}

/// The one line that an output consists of, or why it is not in shape; `shape` is the
/// JSON shape of the trimmed output.
pub open spec fn judged(content: Seq<char>, shape: Option<bool>) -> Result<
    Seq<char>,
    CondensedFault,
> {
    let candidate = text::trimmed(content);
    let lines = output_lines(candidate);
    if candidate.len() == 0 {
        Err(CondensedFault::NoContent)
    } else if text::occurs(candidate, "```"@) {
        Err(CondensedFault::CodeFence)
    } else if shape == Some(true) || bracketed(candidate) {
        Err(CondensedFault::JsonLike)
    } else if lines.len() != 1 {
        Err(CondensedFault::NotSingleLine)
    } else if "#"@.is_prefix_of(lines[0]) {
        Err(CondensedFault::Heading)
    } else if "- "@.is_prefix_of(lines[0]) || "* "@.is_prefix_of(lines[0]) {
        Err(CondensedFault::ListItem)
    } else {
        Ok(lines[0])
    }
}

/// The model of a judgement.
pub open spec fn judgement_model(r: Result<String, CondensedFault>) -> Result<
    Seq<char>,
    CondensedFault,
> {
    match r {
        Ok(line) => Ok(line@),
        Err(fault) => Err(fault),
    }
}

fn is_bracketed(text: &str) -> (r: bool)
    ensures
        r == bracketed(text@),
{
    (text::starts_with(text, "{") && text::ends_with(text, "}")) || (text::starts_with(text, "[")
        && text::ends_with(text, "]"))
}

fn lines_of(candidate: &str) -> (out: Vec<String>)
    ensures
        text::texts(out@) == output_lines(candidate@),
{
    proof {
        reveal_strlit("\r\n");
        reveal_strlit("\r");
    }
    let unix: String = text::replace(candidate, "\r\n", "\n");
    let plain: String = text::replace(unix.as_str(), "\r", "\n");
    let lines: Vec<String> = text::lines(plain.as_str());
    let ghost all = text::texts(lines@);
    let mut out: Vec<String> = Vec::new();
    let mut i: usize = 0;
    assert(text::texts(out@) + filled_lines(all, 0) =~= filled_lines(all, 0));
    while i < lines.len()
        invariant
            i <= lines.len(),
            all == text::texts(lines@),
            text::texts(out@) + filled_lines(all, i as int) == filled_lines(all, 0),
        decreases lines.len() - i,
    {
        let ghost before = text::texts(out@);
        let ghost rest = filled_lines(all, i as int);
        assert(all[i as int] == lines@[i as int]@);
        if !text::blank(lines[i].as_str()) {
            let line: String = text::trim(lines[i].as_str());
            out.push(line);
            assert(text::texts(out@) =~= before.push(line@));
        }
        i = i + 1;
        assert(text::texts(out@) + filled_lines(all, i as int) =~= before + rest);
    }
    assert(text::texts(out@) =~= filled_lines(all, 0));
    out
}

/// The one line that an output consists of, or why it is not in shape, where the
/// trimmed output has the JSON shape `shape`.
pub fn judge_condensed_output(content: &str, shape: Option<bool>) -> (r: Result<
    String,
    CondensedFault,
>)
    ensures
        judgement_model(r) == judged(content@, shape),
{
    let candidate: String = text::trim(content);
    if candidate.as_str().unicode_len() == 0 {
        return Err(CondensedFault::NoContent);
    }
    if text::contains(candidate.as_str(), "```") {
        return Err(CondensedFault::CodeFence);
    }
    let container: bool = match shape {
        Some(container) => container,
        None => false,
    };
    if container || is_bracketed(candidate.as_str()) {
        return Err(CondensedFault::JsonLike);
    }
    let lines: Vec<String> = lines_of(candidate.as_str());
    assert(text::texts(lines@).len() == lines@.len());
    if lines.len() != 1 {
        return Err(CondensedFault::NotSingleLine);
    }
    assert(text::texts(lines@)[0] == lines@[0]@);
    let line: &str = lines[0].as_str();
    if text::starts_with(line, "#") {
        return Err(CondensedFault::Heading);
    }
    if text::starts_with(line, "- ") || text::starts_with(line, "* ") {
        return Err(CondensedFault::ListItem);
    }
    Ok(lines[0].clone())
}

/// The one line that an output consists of, or why it is not in shape.
pub fn normalize_structured_condensed_output(content: &str) -> (r: Result<String, CondensedFault>)
    ensures
        judgement_model(r) == judged(content@, json_shape(text::trimmed(content@))),
{
    judge_condensed_output(content, parse_json(text::trim(content).as_str()))
}

/// Whether an older one-line summary is malformed; `shape` is the JSON shape of the
/// trimmed text.
pub open spec fn malformed(content: Seq<char>, shape: Option<bool>) -> bool {
    let candidate = text::trimmed(content);
    candidate.len() == 0 || text::occurs(candidate, "```"@) || shape is Some || bracketed(candidate)
}

pub fn is_malformed(content: &str, shape: Option<bool>) -> (r: bool)
    ensures
        r == malformed(content@, shape),
{
    let candidate: String = text::trim(content);
    candidate.as_str().unicode_len() == 0 || text::contains(candidate.as_str(), "```")
        || shape.is_some() || is_bracketed(candidate.as_str())
}

/// Whether an older one-line summary is malformed.
pub fn needs_condensed_repair(content: &str) -> (r: bool)
    ensures
        r == malformed(content@, json_shape(text::trimmed(content@))),
{
    is_malformed(content, parse_json(text::trim(content).as_str()))
}

// ---------------------------------------------------------------------------
// Events
// ---------------------------------------------------------------------------

/// An outcome, with the JSON shape of its trimmed first content.
#[derive(Debug, PartialEq, Eq)]
pub struct CondensedEvent {
    pub outcome: Outcome,
    pub shape: Option<bool>,
}

pub struct EventModel {
    pub outcome: OutcomeModel,
    pub shape: Option<bool>,
}

impl View for CondensedEvent {
    type V = EventModel;

    open spec fn view(&self) -> EventModel {
        EventModel { outcome: self.outcome@, shape: self.shape }
    }
}

pub open spec fn events_model(events: Seq<CondensedEvent>) -> Seq<EventModel> {
    Seq::new(events.len(), |i: int| events[i]@)
}

/// The text of an outcome, empty where there is none.
pub open spec fn outcome_text(outcome: OutcomeModel) -> Seq<char> {
    match outcome {
        OutcomeModel::Reply(reply) => completion::content_of(reply),
        OutcomeModel::Failed(_) => Seq::empty(),
    }
}

/// An outcome with the JSON shape of its text.
pub open spec fn observed(outcome: OutcomeModel) -> EventModel {
    EventModel { outcome, shape: json_shape(text::trimmed(outcome_text(outcome))) }
}

/// Look at the shape of what came back.
pub fn observe(outcome: Outcome) -> (event: CondensedEvent)
    ensures
        event@ == observed(outcome@),
{
    let content: String = match &outcome {
        Outcome::Reply(reply) => reply.content(),
        Outcome::Failed(_) => {
            let none: String = String::new();
            assert(none@ =~= Seq::<char>::empty());
            none
        },
    };
    let shape: Option<bool> = parse_json(text::trim(content.as_str()).as_str());
    CondensedEvent { outcome, shape }
}

/// What an event is worth: the line of its reply, or why there is none.
pub open spec fn event_line(event: EventModel) -> Result<Seq<char>, Seq<char>> {
    match event.outcome {
        OutcomeModel::Failed(error) => Err(error),
        OutcomeModel::Reply(reply) => match judged(completion::content_of(reply), event.shape) {
            Ok(line) => Ok(line),
            Err(fault) => if text::is_blank(completion::content_of(reply)) {
                Err("no content generated from backup model"@)
            } else {
                Err(fault_message(fault))
            },
        },
    }
}

/// Whether an event has text that is not in shape.
pub open spec fn out_of_shape(event: EventModel) -> bool {
    match event.outcome {
        OutcomeModel::Failed(_) => false,
        OutcomeModel::Reply(reply) => !text::is_blank(completion::content_of(reply)) && judged(
            completion::content_of(reply),
            event.shape,
        ) is Err,
    }
}

/// The first event at `i` or later, before `end`, with a line in shape.
pub open spec fn first_line(events: Seq<EventModel>, i: int, end: int) -> Option<int>
    decreases end - i,
{
    if i < 0 || i >= end || i >= events.len() {
        None
    } else if event_line(events[i]) is Ok {
        Some(i)
    } else {
        first_line(events, i + 1, end)
    }
}

/// The last event before `end`, at 1 or later, whose text is not in shape.
pub open spec fn last_out_of_shape(events: Seq<EventModel>, end: int) -> Option<int>
    decreases end,
{
    if end <= 1 {
        None
    } else if out_of_shape(events[end - 1]) {
        Some(end - 1)
    } else {
        last_out_of_shape(events, end - 1)
    }
}

/// What a check reply is worth: its line, or why there is none.
pub open spec fn check_line(event: EventModel) -> Result<Seq<char>, Seq<char>> {
    match event.outcome {
        OutcomeModel::Failed(error) => Err(error),
        OutcomeModel::Reply(reply) => if reply.choices.len() == 0 {
            Err("check model returned empty choices"@)
        } else {
            match judged(completion::content_of(reply), event.shape) {
                Ok(line) => Ok(line),
                Err(fault) => Err(
                    "check model returned invalid condensed output: "@ + fault_message(fault),
                ),
            }
        },
    }
}

/// The first check event at `i` or later, before `end`, with a line in shape.
pub open spec fn first_check(events: Seq<EventModel>, i: int, end: int) -> Option<int>
    decreases end - i,
{
    if i < 0 || i >= end || i >= events.len() {
        None
    } else if check_line(events[i]) is Ok {
        Some(i)
    } else {
        first_check(events, i + 1, end)
    }
}

pub open spec fn reply_of(event: EventModel) -> ReplyModel {
    match event.outcome {
        OutcomeModel::Reply(reply) => reply,
        OutcomeModel::Failed(_) => ReplyModel {
            model: Seq::empty(),
            choices: Seq::empty(),
            usage: None,
        },
    }
}

// ---------------------------------------------------------------------------
// Steps
// ---------------------------------------------------------------------------

/// The condensed recap.
#[derive(Debug, PartialEq, Eq)]
pub struct CondensedResult {
    pub content: String,
    pub trace: CondensedExecutionTrace,
}

/// Why there is no condensed recap: the text of the error, and what was tried.
#[derive(Debug, PartialEq, Eq)]
pub struct CondensedGenerationError {
    pub source: String,
    pub trace: CondensedExecutionTrace,
}

/// What to do next.
#[derive(Debug, PartialEq, Eq)]
pub enum CondensedStep {
    Ask(Ask),
    Finished(CondensedResult, Option<UsageRecord>),
    Failed(CondensedGenerationError),
}

#[verifier::ext_equal]
pub enum CondensedStepModel {
    Ask(AskModel),
    Finished { content: Seq<char>, trace: CondensedTrace, record: Option<RecordModel> },
    Failed { source: Seq<char>, trace: CondensedTrace },
}

impl View for CondensedStep {
    type V = CondensedStepModel;

    open spec fn view(&self) -> CondensedStepModel {
        match *self {
            CondensedStep::Ask(ask) => CondensedStepModel::Ask(ask@),
            CondensedStep::Finished(result, record) => CondensedStepModel::Finished {
                content: result.content@,
                trace: result.trace@,
                record: completion::record_model(record),
            },
            CondensedStep::Failed(error) => CondensedStepModel::Failed {
                source: error.source@,
                trace: error.trace@,
            },
        }
    }
}

/// The trace before anything was asked.
pub open spec fn condensed_base(models: ModelsModel) -> CondensedTrace {
    CondensedTrace {
        generation: GenerationTrace {
            primary_model: models.condensed,
            backup_model: text::join_spec(models.condensed_backups, ", "@),
            ..traces::blank_generation()
        },
        check: ConditionalTrace {
            generation: GenerationTrace {
                primary_model: match models.check {
                    Some(model) => model,
                    None => Seq::empty(),
                },
                backup_model: text::join_spec(models.check_backups, ", "@),
                ..traces::blank_generation()
            },
            ..traces::blank_conditional()
        },
    }
}

pub open spec fn with_generation(
    trace: CondensedTrace,
    generation: GenerationTrace,
) -> CondensedTrace {
    CondensedTrace { generation, ..trace }
}

/// The trace once the primary model failed for `reason`.
pub open spec fn primary_failed(trace: CondensedTrace, reason: Seq<char>) -> CondensedTrace {
    with_generation(
        trace,
        GenerationTrace {
            primary_failed: true,
            primary_failure_reason: reason,
            ..trace.generation
        },
    )
}

/// Hand out `content` from `reply`, by a backup or by the primary model.
pub open spec fn handed_out(
    reply: ReplyModel,
    by_backup: bool,
    content: Seq<char>,
    trace: CondensedTrace,
) -> CondensedStepModel {
    let used = completion::resolved_name(
        reply,
        if by_backup {
            trace.generation.backup_used_model
        } else {
            trace.generation.primary_model
        },
    );
    CondensedStepModel::Finished {
        content,
        trace: with_generation(
            trace,
            if by_backup {
                GenerationTrace {
                    primary_used_model: Seq::empty(),
                    backup_used_model: used,
                    ..trace.generation
                }
            } else {
                GenerationTrace { primary_used_model: used, ..trace.generation }
            },
        ),
        record: Some(
            RecordModel {
                operation: completion::SARCASTIC_CONDENSE_OPERATION@,
                usage: completion::usage_of(reply),
                model: used,
            },
        ),
    }
}

pub open spec fn check_ask(model: Seq<char>, raw: Seq<char>) -> AskModel {
    AskModel {
        model,
        system: prompts::CHECK_CONDENSED_OUTPUT_SYSTEM_PROMPT@,
        user: text::replaced(
            prompts::CHECK_CONDENSED_OUTPUT_USER_PROMPT@,
            "{{ .RawOutput }}"@,
            raw,
        ),
        temperature_percent: None,
        max_tokens: None,
    }
}

/// Repair `raw` with the check models, given the events from `from` on.
pub open spec fn repaired(
    models: ModelsModel,
    reply: ReplyModel,
    by_backup: bool,
    raw: Seq<char>,
    error: Seq<char>,
    trace: CondensedTrace,
    events: Seq<EventModel>,
    from: int,
) -> CondensedStepModel {
    if text::is_blank(raw) || models.check is None {
        CondensedStepModel::Failed { source: error, trace }
    } else {
        let model = models.check->0;
        let attempted = ConditionalTrace { attempted: true, ..trace.check };
        let forced = models.force_check_failure;
        if !forced && events.len() <= from {
            CondensedStepModel::Ask(check_ask(model, raw))
        } else {
            let first: Result<Seq<char>, Seq<char>> = if forced {
                Err("check model forced failure via env switch"@)
            } else {
                check_line(events[from])
            };
            match first {
                Ok(line) => handed_out(
                    reply,
                    by_backup,
                    line,
                    CondensedTrace {
                        check: ConditionalTrace {
                            succeeded: true,
                            failure_reason: Seq::empty(),
                            generation: GenerationTrace {
                                primary_used_model: completion::resolved_name(
                                    reply_of(events[from]),
                                    model,
                                ),
                                ..attempted.generation
                            },
                            ..attempted
                        },
                        ..trace
                    },
                ),
                Err(first_error) => {
                    let failed = GenerationTrace {
                        primary_failed: true,
                        primary_failure_reason: first_error,
                        ..attempted.generation
                    };
                    let backups = models.check_backups;
                    let start = if forced {
                        from
                    } else {
                        from + 1
                    };
                    let tried = detailed::smaller(
                        if events.len() <= start {
                            0
                        } else {
                            events.len() - start
                        },
                        backups.len() as int,
                    );
                    if backups.len() == 0 {
                        CondensedStepModel::Failed {
                            source: first_error,
                            trace: CondensedTrace {
                                check: ConditionalTrace {
                                    generation: failed,
                                    failure_reason: first_error,
                                    ..attempted
                                },
                                ..trace
                            },
                        }
                    } else {
                        match first_check(events, start, start + tried) {
                            Some(k) => handed_out(
                                reply,
                                by_backup,
                                check_line(events[k])->Ok_0,
                                CondensedTrace {
                                    check: ConditionalTrace {
                                        succeeded: true,
                                        failure_reason: Seq::empty(),
                                        generation: GenerationTrace {
                                            primary_used_model: Seq::empty(),
                                            backup_used: true,
                                            backup_used_model: completion::resolved_name(
                                                reply_of(events[k]),
                                                backups[k - start],
                                            ),
                                            backup_succeeded: true,
                                            backup_failure_reason: Seq::empty(),
                                            ..failed
                                        },
                                        ..attempted
                                    },
                                    ..trace
                                },
                            ),
                            None => if tried < backups.len() {
                                CondensedStepModel::Ask(check_ask(backups[tried], raw))
                            } else {
                                let last = check_line(events[start + tried - 1])->Err_0;
                                CondensedStepModel::Failed {
                                    source: last,
                                    trace: CondensedTrace {
                                        check: ConditionalTrace {
                                            failure_reason: last,
                                            generation: GenerationTrace {
                                                backup_used: true,
                                                backup_failure_reason: last,
                                                ..failed
                                            },
                                            ..attempted
                                        },
                                        ..trace
                                    },
                                }
                            },
                        }
                    }
                },
            }
        }
    }
}

/// What the primary reply is worth.
pub enum Primary {
    /// A line in shape.
    Line(Seq<char>),
    /// Nothing to build on: the reason, and the error where there are no backups.
    Lost { reason: Seq<char>, error: Seq<char> },
    /// Text that is not in shape.
    Misshapen { reason: Seq<char> },
}

pub open spec fn primary_of(models: ModelsModel, event: EventModel) -> Primary {
    match event.outcome {
        OutcomeModel::Failed(error) => Primary::Lost { reason: error, error },
        OutcomeModel::Reply(reply) => if models.force_condensed_primary_failure
            && models.condensed_backups.len() > 0 {
            Primary::Lost {
                reason: "forced condensed primary failure via env switch"@,
                error: "forced condensed primary failure via env switch"@,
            }
        } else if completion::content_of(reply).len() == 0 {
            Primary::Lost {
                reason: "no content generated from primary model"@,
                error: "no content generated"@,
            }
        } else {
            match judged(completion::content_of(reply), event.shape) {
                Ok(line) => Primary::Line(line),
                Err(fault) => Primary::Misshapen { reason: fault_message(fault) },
            }
        },
    }
}

pub open spec fn condensed_ask(models: ModelsModel, model: Seq<char>, user: Seq<char>) -> AskModel {
    AskModel {
        model,
        system: models.prompts.sarcastic_system_prompt,
        user,
        temperature_percent: Some(70),
        max_tokens: None,
    }
}

/// Go on with the backups after the primary model failed. Where the primary reply was
/// only misshapen, it is what a repair falls back on, and its fault what a failure
/// reports.
pub open spec fn with_backups(
    models: ModelsModel,
    user: Seq<char>,
    failed: CondensedTrace,
    misshapen: Option<Seq<char>>,
    events: Seq<EventModel>,
) -> CondensedStepModel {
    let backups = models.condensed_backups;
    let count = backups.len() as int;
    let tried = detailed::smaller(events.len() - 1, count);
    let used = GenerationTrace { backup_used: true, ..failed.generation };
    match first_line(events, 1, 1 + tried) {
        Some(k) => handed_out(
            reply_of(events[k]),
            true,
            event_line(events[k])->Ok_0,
            with_generation(
                failed,
                GenerationTrace {
                    primary_used_model: Seq::empty(),
                    backup_succeeded: true,
                    backup_used_model: completion::resolved_name(
                        reply_of(events[k]),
                        backups[k - 1],
                    ),
                    backup_failure_reason: Seq::empty(),
                    ..used
                },
            ),
        ),
        None => if tried < count {
            CondensedStepModel::Ask(condensed_ask(models, backups[tried], user))
        } else {
            let last = event_line(events[count])->Err_0;
            let lost = GenerationTrace {
                backup_succeeded: false,
                backup_failure_reason: last,
                ..used
            };
            match last_out_of_shape(events, 1 + count) {
                Some(k) => repaired(
                    models,
                    reply_of(events[k]),
                    true,
                    outcome_text(events[k].outcome),
                    match misshapen {
                        Some(reason) => reason,
                        None => event_line(events[k])->Err_0,
                    },
                    with_generation(
                        failed,
                        GenerationTrace {
                            backup_used_model: completion::resolved_name(
                                reply_of(events[k]),
                                backups[k - 1],
                            ),
                            ..lost
                        },
                    ),
                    events,
                    1 + count,
                ),
                None => match misshapen {
                    Some(reason) => repaired(
                        models,
                        reply_of(events[0]),
                        false,
                        outcome_text(events[0].outcome),
                        reason,
                        with_generation(failed, lost),
                        events,
                        1 + count,
                    ),
                    None => CondensedStepModel::Failed {
                        source: last,
                        trace: with_generation(failed, lost),
                    },
                },
            }
        },
    }
}

/// What to do once `events` came back, in order.
pub open spec fn condensed_step(
    models: ModelsModel,
    content: Seq<char>,
    events: Seq<EventModel>,
) -> CondensedStepModel {
    let base = condensed_base(models);
    if content.len() == 0 {
        CondensedStepModel::Finished { content: Seq::empty(), trace: base, record: None }
    } else {
        match prompts::history_prompt(models.prompts.sarcastic_user_prompt, content) {
            Err(fault) => CondensedStepModel::Failed {
                source: completion::render_message(fault),
                trace: base,
            },
            Ok(user) => if events.len() == 0 {
                CondensedStepModel::Ask(condensed_ask(models, models.condensed, user))
            } else {
                match primary_of(models, events[0]) {
                    Primary::Line(line) => handed_out(reply_of(events[0]), false, line, base),
                    Primary::Lost { reason, error } => if models.condensed_backups.len() == 0 {
                        CondensedStepModel::Failed {
                            source: error,
                            trace: primary_failed(base, reason),
                        }
                    } else {
                        with_backups(models, user, primary_failed(base, reason), None, events)
                    },
                    Primary::Misshapen { reason } => if models.condensed_backups.len() == 0 {
                        repaired(
                            models,
                            reply_of(events[0]),
                            false,
                            outcome_text(events[0].outcome),
                            reason,
                            primary_failed(base, reason),
                            events,
                            1,
                        )
                    } else {
                        with_backups(
                            models,
                            user,
                            primary_failed(base, reason),
                            Some(reason),
                            events,
                        )
                    },
                }
            },
        }
    }
}

// ---------------------------------------------------------------------------
// Taking a step
// ---------------------------------------------------------------------------

fn base_trace(models: &RecapModels) -> (trace: CondensedExecutionTrace)
    ensures
        trace@ == condensed_base(models@),
{
    let mut trace = CondensedExecutionTrace::default();
    trace.generation.primary_model = models.condensed.clone();
    trace.generation.backup_model = text::join(&models.condensed_backups, ", ");
    trace.check.generation.primary_model = match &models.check {
        Some(model) => model.clone(),
        None => String::new(),
    };
    trace.check.generation.backup_model = text::join(&models.check_backups, ", ");
    assert(trace@ =~= condensed_base(models@));
    trace
}

fn line_of(event: &CondensedEvent) -> (r: Result<String, String>)
    ensures
        match r {
            Ok(line) => event_line(event@) == Ok::<Seq<char>, Seq<char>>(line@),
            Err(error) => event_line(event@) == Err::<Seq<char>, Seq<char>>(error@),
        },
{
    match &event.outcome {
        Outcome::Failed(error) => Err(error.clone()),
        Outcome::Reply(reply) => {
            let content: String = reply.content();
            match judge_condensed_output(content.as_str(), event.shape) {
                Ok(line) => Ok(line),
                Err(fault) => if text::blank(content.as_str()) {
                    Err("no content generated from backup model".to_owned())
                } else {
                    Err(fault.message().to_owned())
                },
            }
        },
    }
}

fn is_out_of_shape(event: &CondensedEvent) -> (r: bool)
    ensures
        r == out_of_shape(event@),
{
    match &event.outcome {
        Outcome::Failed(_) => false,
        Outcome::Reply(reply) => {
            let content: String = reply.content();
            if text::blank(content.as_str()) {
                return false;
            }
            match judge_condensed_output(content.as_str(), event.shape) {
                Ok(_) => false,
                Err(_) => true,
            }
        },
    }
}

fn checked_line(event: &CondensedEvent) -> (r: Result<String, String>)
    ensures
        match r {
            Ok(line) => check_line(event@) == Ok::<Seq<char>, Seq<char>>(line@),
            Err(error) => check_line(event@) == Err::<Seq<char>, Seq<char>>(error@),
        },
{
    match &event.outcome {
        Outcome::Failed(error) => Err(error.clone()),
        Outcome::Reply(reply) => {
            if reply.choices.len() == 0 {
                return Err("check model returned empty choices".to_owned());
            }
            match judge_condensed_output(reply.content().as_str(), event.shape) {
                Ok(line) => Ok(line),
                Err(fault) => Err(
                    text::joined2(
                        "check model returned invalid condensed output: ",
                        fault.message(),
                    ),
                ),
            }
        },
    }
}

fn first_in_shape(events: &Vec<CondensedEvent>, end: usize) -> (r: Option<(usize, String)>)
    requires
        1 <= end <= events.len(),
    ensures
        match r {
            Some((k, line)) => 1 <= k < end && first_line(
                events_model(events@),
                1,
                end as int,
            ) == Some(k as int) && event_line(events_model(events@)[k as int]) == Ok::<
                Seq<char>,
                Seq<char>,
            >(line@),
            None => first_line(events_model(events@), 1, end as int) is None,
        },
{
    let ghost all = events_model(events@);
    let mut k: usize = 1;
    while k < end
        invariant
            1 <= k <= end <= events.len(),
            all == events_model(events@),
            first_line(all, k as int, end as int) == first_line(all, 1, end as int),
        decreases end - k,
    {
        assert(all[k as int] == events@[k as int]@);
        match line_of(&events[k]) {
            Ok(line) => {
                return Some((k, line));
            },
            Err(_) => {},
        }
        k = k + 1;
    }
    None
}

fn last_misshapen(events: &Vec<CondensedEvent>, end: usize) -> (r: Option<usize>)
    requires
        1 <= end <= events.len(),
    ensures
        match r {
            Some(k) => 1 <= k < end && last_out_of_shape(events_model(events@), end as int) == Some(
                k as int,
            ) && out_of_shape(events_model(events@)[k as int]),
            None => last_out_of_shape(events_model(events@), end as int) is None,
        },
{
    let ghost all = events_model(events@);
    let mut k: usize = end;
    while k > 1
        invariant
            1 <= k <= end <= events.len(),
            all == events_model(events@),
            last_out_of_shape(all, k as int) == last_out_of_shape(all, end as int),
        decreases k,
    {
        k = k - 1;
        assert(all[k as int] == events@[k as int]@);
        if is_out_of_shape(&events[k]) {
            return Some(k);
        }
    }
    None
}

fn first_checked(events: &Vec<CondensedEvent>, from: usize, end: usize) -> (r: Option<
    (usize, String),
>)
    requires
        from <= end,
        from < end ==> end <= events.len(),
    ensures
        match r {
            Some((k, line)) => from <= k < end && first_check(
                events_model(events@),
                from as int,
                end as int,
            ) == Some(k as int) && check_line(events_model(events@)[k as int]) == Ok::<
                Seq<char>,
                Seq<char>,
            >(line@),
            None => first_check(events_model(events@), from as int, end as int) is None,
        },
{
    let ghost all = events_model(events@);
    let mut k: usize = from;
    while k < end
        invariant
            from <= k <= end,
            from < end ==> end <= events.len(),
            all == events_model(events@),
            first_check(all, k as int, end as int) == first_check(all, from as int, end as int),
        decreases end - k,
    {
        assert(all[k as int] == events@[k as int]@);
        match checked_line(&events[k]) {
            Ok(line) => {
                return Some((k, line));
            },
            Err(_) => {},
        }
        k = k + 1;
    }
    None
}

fn hand_out(
    reply: &CompletionReply,
    by_backup: bool,
    content: String,
    mut trace: CondensedExecutionTrace,
) -> (step: CondensedStep)
    ensures
        step@ == handed_out(reply@, by_backup, content@, trace@),
{
    let ghost before = trace@;
    let used: String = if by_backup {
        reply.resolved_model(trace.generation.backup_used_model.as_str())
    } else {
        reply.resolved_model(trace.generation.primary_model.as_str())
    };
    if by_backup {
        trace.generation.primary_used_model = String::new();
        trace.generation.backup_used_model = used.clone();
    } else {
        trace.generation.primary_used_model = used.clone();
    }
    let record = UsageRecord {
        operation: completion::SARCASTIC_CONDENSE_OPERATION,
        usage: reply.token_usage(),
        model: used,
    };
    let step: CondensedStep = CondensedStep::Finished(
        CondensedResult { content, trace },
        Some(record),
    );
    assert(step@ =~= handed_out(reply@, by_backup, content@, before));
    step
}

fn fail(source: String, trace: CondensedExecutionTrace) -> (step: CondensedStep)
    ensures
        step@ == (CondensedStepModel::Failed { source: source@, trace: trace@ }),
{
    CondensedStep::Failed(CondensedGenerationError { source, trace })
}

fn ask_check(model: &str, raw: &str) -> (step: CondensedStep)
    ensures
        step@ == CondensedStepModel::Ask(check_ask(model@, raw@)),
{
    proof {
        reveal_strlit("{{ .RawOutput }}");
    }
    CondensedStep::Ask(
        Ask {
            model: model.to_owned(),
            system: prompts::CHECK_CONDENSED_OUTPUT_SYSTEM_PROMPT.to_owned(),
            user: text::replace(
                prompts::CHECK_CONDENSED_OUTPUT_USER_PROMPT,
                "{{ .RawOutput }}",
                raw,
            ),
            temperature_percent: None,
            max_tokens: None,
        },
    )
}

fn ask_condensed(models: &RecapModels, model: &str, user: String) -> (step: CondensedStep)
    ensures
        step@ == CondensedStepModel::Ask(condensed_ask(models@, model@, user@)),
{
    CondensedStep::Ask(
        Ask {
            model: model.to_owned(),
            system: models.prompts.sarcastic_system_prompt.clone(),
            user,
            temperature_percent: Some(70),
            max_tokens: None,
        },
    )
}

fn used_model(event: &CondensedEvent, requested: &str) -> (out: String)
    requires
        event@.outcome is Reply,
    ensures
        out@ == completion::resolved_name(reply_of(event@), requested@),
{
    match &event.outcome {
        Outcome::Reply(reply) => reply.resolved_model(requested),
        Outcome::Failed(_) => String::new(),
    }
}

fn repair(
    models: &RecapModels,
    reply: &CompletionReply,
    by_backup: bool,
    raw: &str,
    error: String,
    mut trace: CondensedExecutionTrace,
    events: &Vec<CondensedEvent>,
    from: usize,
) -> (step: CondensedStep)
    requires
        from <= events.len(),
    ensures
        step@ == repaired(
            models@,
            reply@,
            by_backup,
            raw@,
            error@,
            trace@,
            events_model(events@),
            from as int,
        ),
{
    let ghost all = events_model(events@);
    let ghost before = trace@;
    let ghost wanted = repaired(
        models@,
        reply@,
        by_backup,
        raw@,
        error@,
        before,
        all,
        from as int,
    );
    if text::blank(raw) {
        return fail(error, trace);
    }
    let model: &String = match &models.check {
        Some(model) => model,
        None => {
            return fail(error, trace);
        },
    };
    let forced: bool = models.force_check_failure;
    if !forced && events.len() <= from {
        return ask_check(model.as_str(), raw);
    }
    trace.check.attempted = true;
    let first_error: String = if forced {
        "check model forced failure via env switch".to_owned()
    } else {
        assert(all[from as int] == events@[from as int]@);
        match checked_line(&events[from]) {
            Ok(line) => {
                trace.check.succeeded = true;
                trace.check.failure_reason = String::new();
                trace.check.generation.primary_used_model = used_model(
                    &events[from],
                    model.as_str(),
                );
                let step: CondensedStep = hand_out(reply, by_backup, line, trace);
                assert(step@ =~= wanted);
                return step;
            },
            Err(error) => error,
        }
    };
    trace.check.generation.primary_failed = true;
    trace.check.generation.primary_failure_reason = first_error.clone();
    if models.check_backups.len() == 0 {
        trace.check.failure_reason = first_error.clone();
        let step: CondensedStep = fail(first_error, trace);
        assert(step@ =~= wanted);
        return step;
    }
    trace.check.generation.backup_used = true;
    let start: usize = if forced {
        from
    } else {
        from + 1
    };
    let there: usize = events.len() - start;
    let tried: usize = if there <= models.check_backups.len() {
        there
    } else {
        models.check_backups.len()
    };
    match first_checked(events, start, start + tried) {
        Some((k, line)) => {
            assert(all[k as int] == events@[k as int]@);
            assert(models@.check_backups[k - start] == models.check_backups@[k - start]@);
            trace.check.succeeded = true;
            trace.check.failure_reason = String::new();
            trace.check.generation.primary_used_model = String::new();
            trace.check.generation.backup_used_model = used_model(
                &events[k],
                models.check_backups[k - start].as_str(),
            );
            trace.check.generation.backup_succeeded = true;
            trace.check.generation.backup_failure_reason = String::new();
            let step: CondensedStep = hand_out(reply, by_backup, line, trace);
            assert(step@ =~= wanted);
            step
        },
        None => {
            if tried < models.check_backups.len() {
                assert(models@.check_backups[tried as int] == models.check_backups@[tried as int]@);
                return ask_check(models.check_backups[tried].as_str(), raw);
            }
            assert(all[start + tried - 1] == events@[start + tried - 1]@);
            proof {
                lemma_no_check(all, start as int, start + tried, start + tried - 1);
            }
            let last: String = match checked_line(&events[start + tried - 1]) {
                Ok(line) => line,
                Err(error) => error,
            };
            trace.check.generation.backup_failure_reason = last.clone();
            trace.check.failure_reason = last.clone();
            let step: CondensedStep = fail(last, trace);
            assert(trace@.check.generation.backup_succeeded
                == before.check.generation.backup_succeeded);
            assert(step@ =~= wanted);
            step
        },
    }
}

proof fn lemma_no_check(events: Seq<EventModel>, i: int, end: int, k: int)
    requires
        0 <= i <= k < end <= events.len(),
        first_check(events, i, end) is None,
    ensures
        check_line(events[k]) is Err,
    decreases end - i,
{
    if i < k {
        lemma_no_check(events, i + 1, end, k);
    }
}

proof fn lemma_no_line(events: Seq<EventModel>, i: int, end: int, k: int)
    requires
        0 <= i <= k < end <= events.len(),
        first_line(events, i, end) is None,
    ensures
        event_line(events[k]) is Err,
    decreases end - i,
{
    if i < k {
        lemma_no_line(events, i + 1, end, k);
    }
}

fn go_on_with_backups(
    models: &RecapModels,
    user: String,
    mut trace: CondensedExecutionTrace,
    misshapen: Option<String>,
    events: &Vec<CondensedEvent>,
) -> (step: CondensedStep)
    requires
        events.len() > 0,
        models.condensed_backups.len() > 0,
        misshapen is Some ==> events@[0].outcome is Reply,
    ensures
        step@ == with_backups(
            models@,
            user@,
            trace@,
            text::viewed(misshapen),
            events_model(events@),
        ),
{
    let ghost all = events_model(events@);
    let ghost failed = trace@;
    let ghost wanted = with_backups(models@, user@, failed, text::viewed(misshapen), all);
    let count: usize = models.condensed_backups.len();
    let tried: usize = if events.len() - 1 <= count {
        events.len() - 1
    } else {
        count
    };
    trace.generation.backup_used = true;
    match first_in_shape(events, 1 + tried) {
        Some((k, line)) => {
            assert(all[k as int] == events@[k as int]@);
            assert(models@.condensed_backups[k - 1] == models.condensed_backups@[k - 1]@);
            match &events[k].outcome {
                Outcome::Reply(reply) => {
                    trace.generation.backup_succeeded = true;
                    trace.generation.primary_used_model = String::new();
                    trace.generation.backup_used_model = reply.resolved_model(
                        models.condensed_backups[k - 1].as_str(),
                    );
                    trace.generation.backup_failure_reason = String::new();
                    let ghost marked = with_generation(
                        failed,
                        GenerationTrace {
                            primary_used_model: Seq::empty(),
                            backup_succeeded: true,
                            backup_used_model: completion::resolved_name(
                                reply@,
                                models@.condensed_backups[k - 1],
                            ),
                            backup_failure_reason: Seq::empty(),
                            backup_used: true,
                            ..failed.generation
                        },
                    );
                    assert(trace@ =~= marked);
                    hand_out(reply, true, line, trace)
                },
                Outcome::Failed(error) => fail(error.clone(), trace),
            }
        },
        None => {
            if tried < count {
                assert(models@.condensed_backups[tried as int]
                    == models.condensed_backups@[tried as int]@);
                return ask_condensed(models, models.condensed_backups[tried].as_str(), user);
            }
            assert(all[count as int] == events@[count as int]@);
            proof {
                lemma_no_line(all, 1, 1 + tried, count as int);
            }
            let last: String = match line_of(&events[count]) {
                Ok(line) => line,
                Err(error) => error,
            };
            trace.generation.backup_succeeded = false;
            trace.generation.backup_failure_reason = last.clone();
            let ghost lost = GenerationTrace {
                backup_succeeded: false,
                backup_failure_reason: last@,
                backup_used: true,
                ..failed.generation
            };
            assert(trace@ =~= with_generation(failed, lost));
            match last_misshapen(events, 1 + count) {
                Some(k) => {
                    assert(all[k as int] == events@[k as int]@);
                    assert(models@.condensed_backups[k - 1] == models.condensed_backups@[k - 1]@);
                    match &events[k].outcome {
                        Outcome::Reply(reply) => {
                            trace.generation.backup_used_model = reply.resolved_model(
                                models.condensed_backups[k - 1].as_str(),
                            );
                            let ghost marked = with_generation(
                                failed,
                                GenerationTrace {
                                    backup_used_model: completion::resolved_name(
                                        reply@,
                                        models@.condensed_backups[k - 1],
                                    ),
                                    ..lost
                                },
                            );
                            assert(trace@ =~= marked);
                            let error: String = match misshapen {
                                Some(reason) => reason,
                                None => match line_of(&events[k]) {
                                    Ok(line) => line,
                                    Err(error) => error,
                                },
                            };
                            let raw: String = reply.content();
                            repair(
                                models,
                                reply,
                                true,
                                raw.as_str(),
                                error,
                                trace,
                                events,
                                1 + count,
                            )
                        },
                        Outcome::Failed(error) => fail(error.clone(), trace),
                    }
                },
                None => match misshapen {
                    Some(reason) => {
                        assert(all[0] == events@[0]@);
                        match &events[0].outcome {
                            Outcome::Reply(reply) => {
                                let raw: String = reply.content();
                                repair(
                                    models,
                                    reply,
                                    false,
                                    raw.as_str(),
                                    reason,
                                    trace,
                                    events,
                                    1 + count,
                                )
                            },
                            Outcome::Failed(error) => fail(error.clone(), trace),
                        }
                    },
                    None => fail(last, trace),
                },
            }
        },
    }
}

/// What to do next for the condensed recap of `content`, given all that came back so
/// far.
pub fn sarcastic_condense_step(
    models: &RecapModels,
    content: &str,
    events: &Vec<CondensedEvent>,
) -> (step: CondensedStep)
    ensures
        step@ == condensed_step(models@, content@, events_model(events@)),
{
    let ghost all = events_model(events@);
    let mut trace: CondensedExecutionTrace = base_trace(models);
    if content.unicode_len() == 0 {
        let none: String = String::new();
        assert(none@ =~= Seq::<char>::empty());
        return CondensedStep::Finished(CondensedResult { content: none, trace }, None);
    }
    let user: String = match models.prompts.render_sarcastic_user_prompt(content) {
        Ok(user) => user,
        Err(fault) => {
            return fail(completion::render_error(fault), trace);
        },
    };
    if events.len() == 0 {
        return ask_condensed(models, models.condensed.as_str(), user);
    }
    assert(all[0] == events@[0]@);
    let ghost base = trace@;
    trace.generation.primary_failed = true;
    match &events[0].outcome {
        Outcome::Failed(error) => {
            trace.generation.primary_failure_reason = error.clone();
            assert(trace@ =~= primary_failed(base, error@));
            if models.condensed_backups.len() == 0 {
                return fail(error.clone(), trace);
            }
            go_on_with_backups(models, user, trace, None, events)
        },
        Outcome::Reply(reply) => {
            if models.force_condensed_primary_failure && models.condensed_backups.len() > 0 {
                trace.generation.primary_failure_reason =
                    "forced condensed primary failure via env switch".to_owned();
                assert(trace@ =~= primary_failed(
                    base,
                    "forced condensed primary failure via env switch"@,
                ));
                return go_on_with_backups(models, user, trace, None, events);
            }
            let raw: String = reply.content();
            if raw.as_str().unicode_len() == 0 {
                trace.generation.primary_failure_reason =
                    "no content generated from primary model".to_owned();
                assert(trace@ =~= primary_failed(base, "no content generated from primary model"@));
                if models.condensed_backups.len() == 0 {
                    return fail("no content generated".to_owned(), trace);
                }
                return go_on_with_backups(models, user, trace, None, events);
            }
            match judge_condensed_output(raw.as_str(), events[0].shape) {
                Ok(line) => {
                    trace.generation.primary_failed = false;
                    assert(trace@ =~= base);
                    hand_out(reply, false, line, trace)
                },
                Err(fault) => {
                    let reason: String = fault.message().to_owned();
                    trace.generation.primary_failure_reason = reason.clone();
                    assert(trace@ =~= primary_failed(base, reason@));
                    if models.condensed_backups.len() == 0 {
                        return repair(
                            models,
                            reply,
                            false,
                            raw.as_str(),
                            reason,
                            trace,
                            events,
                            1,
                        );
                    }
                    go_on_with_backups(models, user, trace, Some(reason), events)
                },
            }
        },
    }
}

} // verus!
