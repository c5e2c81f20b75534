//! The detailed recap of one slice: a primary model, then its backups in order.

use vstd::prelude::*;

use crate::db::models::TokenUsage;
use crate::services::completion::{
    self, Ask, AskModel, CompletionReply, ModelsModel, Outcome, OutcomeModel, RecapModels,
    RecordModel, UsageRecord,
};
use crate::services::prompts;
use crate::services::traces::{
    self, GenerationModelExecutionTrace, GenerationTrace, RecapExecutionTrace,
};
use crate::text;

verus! {

/// The recap of one slice.
#[derive(Debug, PartialEq, Eq)]
pub struct DetailedSliceResult {
    pub content: String,
    pub usage: TokenUsage,
    pub trace: RecapExecutionTrace,
}

/// Why one slice has no recap: the text of the error, and what was tried.
#[derive(Debug, PartialEq, Eq)]
pub struct DetailedGenerationError {
    pub source: String,
    pub trace: RecapExecutionTrace,
}

/// What to do next for one slice.
#[derive(Debug, PartialEq, Eq)]
pub enum DetailedStep {
    Ask(Ask),
    Finished(DetailedSliceResult, UsageRecord),
    Failed(DetailedGenerationError),
}

#[verifier::ext_equal]
pub enum DetailedStepModel {
    Ask(AskModel),
    Finished {
        content: Seq<char>,
        usage: TokenUsage,
        trace: GenerationTrace,
        record: RecordModel,
    },
    Failed { source: Seq<char>, trace: GenerationTrace },
}

impl View for DetailedStep {
    type V = DetailedStepModel;

    open spec fn view(&self) -> DetailedStepModel {
        match *self {
            DetailedStep::Ask(ask) => DetailedStepModel::Ask(ask@),
            DetailedStep::Finished(result, record) => DetailedStepModel::Finished {
                content: result.content@,
                usage: result.usage,
                trace: result.trace@,
                record: record@,
            },
            DetailedStep::Failed(error) => DetailedStepModel::Failed {
                source: error.source@,
                trace: error.trace@,
            },
        }
    }
}

/// Whether an outcome is a reply with more than whitespace in its first choice.
pub open spec fn usable(outcome: OutcomeModel) -> bool {
    match outcome {
        OutcomeModel::Reply(reply) => !text::is_blank(completion::content_of(reply)),
        OutcomeModel::Failed(_) => false,
    }
}

/// Why an outcome is of no use: its error, or `empty` where it has no content.
pub open spec fn useless_reason(outcome: OutcomeModel, empty: Seq<char>) -> Seq<char> {
    match outcome {
        OutcomeModel::Reply(_) => empty,
        OutcomeModel::Failed(error) => error,
    }
}

/// The first usable outcome at `i` or later, before `end`.
pub open spec fn first_usable(outcomes: Seq<OutcomeModel>, i: int, end: int) -> Option<int>
    decreases end - i,
{
    if i < 0 || i >= end || i >= outcomes.len() {
        None
    } else if usable(outcomes[i]) {
        Some(i)
    } else {
        first_usable(outcomes, i + 1, end)
    }
}

pub open spec fn smaller(a: int, b: int) -> int {
    if a <= b {
        a
    } else {
        b
    }
}

/// The trace before anything was asked.
pub open spec fn detailed_base(models: ModelsModel) -> GenerationTrace {
    GenerationTrace {
        primary_model: models.primary,
        backup_model: text::join_spec(models.primary_backups, ", "@),
        ..traces::blank_generation()
    }
}

/// The trace once the primary model was of no use.
pub open spec fn primary_lost(models: ModelsModel, outcome: OutcomeModel) -> GenerationTrace {
    GenerationTrace {
        primary_used_model: match outcome {
            OutcomeModel::Reply(reply) => completion::resolved_name(reply, models.primary),
            OutcomeModel::Failed(_) => Seq::empty(),
        },
        primary_failed: true,
        primary_failure_reason: useless_reason(
            outcome,
            "primary model returned empty recap content"@,
        ),
        ..detailed_base(models)
    }
}

pub open spec fn finished_with(
    outcome: OutcomeModel,
    requested: Seq<char>,
    trace: GenerationTrace,
) -> DetailedStepModel {
    match outcome {
        OutcomeModel::Reply(reply) => DetailedStepModel::Finished {
            content: completion::content_of(reply),
            usage: completion::usage_of(reply),
            trace,
            record: RecordModel {
                operation: completion::SUMMARIZE_CHAT_HISTORIES_OPERATION@,
                usage: completion::usage_of(reply),
                model: completion::resolved_name(reply, requested),
            },
        },
        OutcomeModel::Failed(_) => DetailedStepModel::Failed { source: Seq::empty(), trace },
    }
}

/// The name of the model behind a usable outcome.
pub open spec fn answered_by(outcome: OutcomeModel, requested: Seq<char>) -> Seq<char> {
    match outcome {
        OutcomeModel::Reply(reply) => completion::resolved_name(reply, requested),
        OutcomeModel::Failed(_) => Seq::empty(),
    }
}

/// What to do once `outcomes` came back, in order: the primary model is asked first,
/// then every backup in turn, until one gives content.
pub open spec fn detailed_step(
    models: ModelsModel,
    language: Seq<char>,
    content: Seq<char>,
    outcomes: Seq<OutcomeModel>,
) -> DetailedStepModel {
    let spoken = if language.len() == 0 {
        models.prompts.summarization_language
    } else {
        language
    };
    let backups = models.primary_backups;
    match prompts::language_prompt(
        prompts::CHAT_HISTORY_SUMMARIZATION_USER_PROMPT@,
        spoken,
        content,
    ) {
        Err(fault) => DetailedStepModel::Failed {
            source: completion::render_message(fault),
            trace: detailed_base(models),
        },
        Ok(user) => if outcomes.len() == 0 {
            DetailedStepModel::Ask(detailed_ask(models.primary, user))
        } else if usable(outcomes[0]) {
            finished_with(
                outcomes[0],
                models.primary,
                GenerationTrace {
                    primary_used_model: answered_by(outcomes[0], models.primary),
                    ..detailed_base(models)
                },
            )
        } else {
            let lost = primary_lost(models, outcomes[0]);
            let tried = smaller(outcomes.len() - 1, backups.len() as int);
            if backups.len() == 0 {
                DetailedStepModel::Failed { source: lost.primary_failure_reason, trace: lost }
            } else {
                match first_usable(outcomes, 1, 1 + tried) {
                    Some(k) => finished_with(
                        outcomes[k],
                        backups[k - 1],
                        GenerationTrace {
                            primary_used_model: Seq::empty(),
                            backup_used: true,
                            backup_succeeded: true,
                            backup_used_model: answered_by(outcomes[k], backups[k - 1]),
                            ..lost
                        },
                    ),
                    None => if tried < backups.len() {
                        DetailedStepModel::Ask(detailed_ask(backups[tried], user))
                    } else {
                        let reason = useless_reason(
                            outcomes[tried],
                            "backup model returned empty recap content"@,
                        );
                        DetailedStepModel::Failed {
                            source: reason,
                            trace: GenerationTrace {
                                backup_used: true,
                                backup_failure_reason: reason,
                                ..lost
                            },
                        }
                    },
                }
            }
        },
    }
}

pub open spec fn detailed_ask(model: Seq<char>, user: Seq<char>) -> AskModel {
    AskModel {
        model,
        system: prompts::CHAT_HISTORY_SUMMARIZATION_SYSTEM_PROMPT@,
        user,
        temperature_percent: None,
        max_tokens: None,
    }
}

fn ask_of(model: &str, user: String) -> (ask: Ask)
    ensures
        ask@ == detailed_ask(model@, user@),
{
    Ask {
        model: model.to_owned(),
        system: prompts::CHAT_HISTORY_SUMMARIZATION_SYSTEM_PROMPT.to_owned(),
        user,
        temperature_percent: None,
        max_tokens: None,
    }
}

fn is_usable(outcome: &Outcome) -> (r: bool)
    ensures
        r == usable(outcome@),
{
    match outcome {
        Outcome::Reply(reply) => !text::blank(reply.content().as_str()),
        Outcome::Failed(_) => false,
    }
}

fn reason_of(outcome: &Outcome, empty: &str) -> (out: String)
    ensures
        out@ == useless_reason(outcome@, empty@),
{
    match outcome {
        Outcome::Reply(_) => empty.to_owned(),
        Outcome::Failed(error) => error.clone(),
    }
}

fn base_trace(models: &RecapModels) -> (trace: GenerationModelExecutionTrace)
    ensures
        trace@ == detailed_base(models@),
{
    let mut trace = GenerationModelExecutionTrace::default();
    trace.primary_model = models.primary.clone();
    trace.backup_model = text::join(&models.primary_backups, ", ");
    assert(trace@ =~= detailed_base(models@));
    trace
}

fn finish(reply: &CompletionReply, used: String, trace: GenerationModelExecutionTrace) -> (step:
    DetailedStep)
    ensures
        step@ == (DetailedStepModel::Finished {
            content: completion::content_of(reply@),
            usage: completion::usage_of(reply@),
            trace: trace@,
            record: RecordModel {
                operation: completion::SUMMARIZE_CHAT_HISTORIES_OPERATION@,
                usage: completion::usage_of(reply@),
                model: used@,
            },
        }),
{
    let usage: TokenUsage = reply.token_usage();
    DetailedStep::Finished(
        DetailedSliceResult {
            content: reply.content(),
            usage,
            trace: RecapExecutionTrace { generation: trace },
        },
        UsageRecord {
            operation: completion::SUMMARIZE_CHAT_HISTORIES_OPERATION,
            usage,
            model: used,
        },
    )
}

fn fail(source: String, trace: GenerationModelExecutionTrace) -> (step: DetailedStep)
    ensures
        step@ == (DetailedStepModel::Failed { source: source@, trace: trace@ }),
{
    DetailedStep::Failed(
        DetailedGenerationError { source, trace: RecapExecutionTrace { generation: trace } },
    )
}

/// What to do next for the slice `content`, given all that came back so far.
pub fn summarize_chat_histories_step(
    models: &RecapModels,
    content: &str,
    language: &str,
    outcomes: &Vec<Outcome>,
) -> (step: DetailedStep)
    ensures
        step@ == detailed_step(
            models@,
            language@,
            content@,
            completion::outcomes_model(outcomes@),
        ),
{
    let ghost all = completion::outcomes_model(outcomes@);
    let spoken: &str = if language.unicode_len() == 0 {
        models.prompts.summarization_language.as_str()
    } else {
        language
    };
    let mut trace: GenerationModelExecutionTrace = base_trace(models);
    let user: String = match prompts::render_chat_history_summarization_user_prompt(
        spoken,
        content,
    ) {
        Ok(user) => user,
        Err(fault) => {
            return fail(completion::render_error(fault), trace);
        },
    };
    if outcomes.len() == 0 {
        return DetailedStep::Ask(ask_of(models.primary.as_str(), user));
    }
    assert(all[0] == outcomes@[0]@);
    if is_usable(&outcomes[0]) {
        match &outcomes[0] {
            Outcome::Reply(reply) => {
                let used: String = reply.resolved_model(models.primary.as_str());
                trace.primary_used_model = used.clone();
                let ghost wanted = GenerationTrace {
                    primary_used_model: answered_by(all[0], models@.primary),
                    ..detailed_base(models@)
                };
                assert(trace@ =~= wanted);
                return finish(reply, used, trace);
            },
            Outcome::Failed(_) => {},
        }
    }
    let reason: String = reason_of(&outcomes[0], "primary model returned empty recap content");
    match &outcomes[0] {
        Outcome::Reply(reply) => {
            trace.primary_used_model = reply.resolved_model(models.primary.as_str());
        },
        Outcome::Failed(_) => {},
    }
    trace.primary_failed = true;
    trace.primary_failure_reason = reason.clone();
    assert(trace@ =~= primary_lost(models@, all[0]));
    if models.primary_backups.len() == 0 {
        return fail(reason, trace);
    }
    let ghost backups = models@.primary_backups;
    let tried: usize = if outcomes.len() - 1 <= models.primary_backups.len() {
        outcomes.len() - 1
    } else {
        models.primary_backups.len()
    };
    let mut k: usize = 1;
    while k < 1 + tried
        invariant
            1 <= k <= 1 + tried,
            tried < outcomes.len(),
            tried <= models.primary_backups.len(),
            all == completion::outcomes_model(outcomes@),
            backups == models@.primary_backups,
            all.len() > 0,
            !usable(all[0]),
            backups.len() > 0,
            tried == smaller(all.len() - 1, backups.len() as int),
            trace@ == primary_lost(models@, all[0]),
            first_usable(all, k as int, 1 + tried) == first_usable(all, 1, 1 + tried),
            prompts::language_prompt(
                prompts::CHAT_HISTORY_SUMMARIZATION_USER_PROMPT@,
                spoken@,
                content@,
            ) is Ok,
            spoken@ == (if language@.len() == 0 {
                models@.prompts.summarization_language
            } else {
                language@
            }),
        decreases 1 + tried - k,
    {
        assert(all[k as int] == outcomes@[k as int]@);
        if is_usable(&outcomes[k]) {
            match &outcomes[k] {
                Outcome::Reply(reply) => {
                    assert(backups[k - 1] == models.primary_backups@[k - 1]@);
                    let used: String = reply.resolved_model(
                        models.primary_backups[k - 1].as_str(),
                    );
                    trace.primary_used_model = String::new();
                    trace.backup_used = true;
                    trace.backup_succeeded = true;
                    trace.backup_used_model = used.clone();
                    let ghost wanted = GenerationTrace {
                        primary_used_model: Seq::empty(),
                        backup_used: true,
                        backup_succeeded: true,
                        backup_used_model: answered_by(all[k as int], backups[k - 1]),
                        ..primary_lost(models@, all[0])
                    };
                    assert(trace@ =~= wanted);
                    return finish(reply, used, trace);
                },
                Outcome::Failed(_) => {},
            }
        }
        k = k + 1;
    }
    trace.backup_used = true;
    if tried < models.primary_backups.len() {
        assert(backups[tried as int] == models.primary_backups@[tried as int]@);
        return DetailedStep::Ask(ask_of(models.primary_backups[tried].as_str(), user));
    }
    assert(all[tried as int] == outcomes@[tried as int]@);
    let last: String = reason_of(&outcomes[tried], "backup model returned empty recap content");
    trace.backup_failure_reason = last.clone();
    let ghost wanted = GenerationTrace {
        backup_used: true,
        backup_failure_reason: last@,
        ..primary_lost(models@, all[0])
    };
    assert(trace@ =~= wanted);
    fail(last, trace)
}

// ---------------------------------------------------------------------------
// Laws
// ---------------------------------------------------------------------------

proof fn lemma_first_usable(outcomes: Seq<OutcomeModel>, i: int, end: int)
    requires
        0 <= i <= end <= outcomes.len(),
    ensures
        match first_usable(outcomes, i, end) {
            Some(k) => i <= k < end && usable(outcomes[k]) && forall|j: int|
                i <= j < k ==> !usable(#[trigger] outcomes[j]),
            None => forall|j: int| i <= j < end ==> !usable(#[trigger] outcomes[j]),
        },
    decreases end - i,
{
    if i < end && !usable(outcomes[i]) {
        lemma_first_usable(outcomes, i + 1, end);
    }
}

/// No more completions are asked for than there are models, each model is asked at most
/// once and in order, and a recap that is handed out has content.
pub proof fn lemma_detailed_steps(
    models: ModelsModel,
    language: Seq<char>,
    content: Seq<char>,
    outcomes: Seq<OutcomeModel>,
)
    ensures
        match detailed_step(models, language, content, outcomes) {
            DetailedStepModel::Ask(ask) => outcomes.len() <= models.primary_backups.len()
                && ask.model == if outcomes.len() == 0 {
                models.primary
            } else {
                models.primary_backups[outcomes.len() - 1]
            },
            DetailedStepModel::Finished { content, .. } => !text::is_blank(content),
            DetailedStepModel::Failed { .. } => true,
        },
{
    let backups = models.primary_backups;
    if outcomes.len() > 0 {
        let tried = smaller(outcomes.len() - 1, backups.len() as int);
        lemma_first_usable(outcomes, 1, 1 + tried);
    }
}

/// Once some model gave content, what comes after it makes no difference.
pub proof fn lemma_detailed_settled(
    models: ModelsModel,
    language: Seq<char>,
    content: Seq<char>,
    outcomes: Seq<OutcomeModel>,
    more: OutcomeModel,
)
    requires
        detailed_step(models, language, content, outcomes) is Finished,
    ensures
        detailed_step(models, language, content, outcomes.push(more)) == detailed_step(
            models,
            language,
            content,
            outcomes,
        ),
{
    let backups = models.primary_backups;
    let longer = outcomes.push(more);
    if outcomes.len() > 0 {
        assert(longer[0] == outcomes[0]);
        let tried = smaller(outcomes.len() - 1, backups.len() as int);
        let then = smaller(longer.len() - 1, backups.len() as int);
        lemma_first_usable(outcomes, 1, 1 + tried);
        lemma_first_usable(longer, 1, 1 + then);
        if !usable(outcomes[0]) {
            let k = first_usable(outcomes, 1, 1 + tried)->0;
            assert(longer[k] == outcomes[k]);
            assert(usable(longer[k]));
            let j = first_usable(longer, 1, 1 + then)->0;
            if j < k {
                assert(longer[j] == outcomes[j]);
            }
        }
    }
}

} // verus!
