//! Both summaries of a chat at once: one line and the structured one, with an optional
//! check model that repairs either.

use vstd::prelude::*;

use crate::config::Locale;
use crate::db::models::ChatHistory;
use crate::services::completion::{
    self, Ask, AskModel, ModelsModel, Outcome, OutcomeModel, RecapModels,
};
use crate::services::condensed::{self, is_malformed, parse_json};
use crate::services::openai::{
    self, CheckModelTrace, CheckTraceModel, LabelsModel, RecapOutput, RecapTrace, SummaryLabels,
    TopicModel,
};
use crate::services::prompts::{self, TopicSummary};
use crate::text;

verus! {

/// The language that the structured summary is asked for in.
pub open spec fn language_name(locale: Locale) -> Seq<char> {
    match locale {
        Locale::ZhHans => "Simplified Chinese"@,
        Locale::ZhHant => "Traditional Chinese"@,
        Locale::En => "English"@,
    }
}

pub fn summary_language(locale: Locale) -> (out: &'static str)
    ensures
        out@ == language_name(locale),
{
    match locale {
        Locale::ZhHans => "Simplified Chinese",
        Locale::ZhHant => "Traditional Chinese",
        Locale::En => "English",
    }
}

/// The model of a request that may fail to be made.
pub open spec fn ask_model(r: Result<Ask, String>) -> Result<AskModel, Seq<char>> {
    match r {
        Ok(ask) => Ok(ask@),
        Err(error) => Err(error@),
    }
}

pub open spec fn sarcastic_ask(models: ModelsModel, content: Seq<char>) -> Result<
    AskModel,
    Seq<char>,
> {
    match prompts::history_prompt(models.prompts.sarcastic_user_prompt, content) {
        Err(fault) => Err(completion::render_message(fault)),
        Ok(user) => Ok(
            AskModel {
                model: models.condensed,
                system: models.prompts.sarcastic_system_prompt,
                user,
                temperature_percent: None,
                max_tokens: Some(200),
            },
        ),
    }
}

/// What to ask for the one-line summary.
pub fn ask_sarcastic_condense(models: &RecapModels, content: &str) -> (r: Result<Ask, String>)
    ensures
        ask_model(r) == sarcastic_ask(models@, content@),
{
    match models.prompts.render_sarcastic_user_prompt(content) {
        Err(fault) => Err(completion::render_error(fault)),
        Ok(user) => Ok(
            Ask {
                model: models.condensed.clone(),
                system: models.prompts.sarcastic_system_prompt.clone(),
                user,
                temperature_percent: None,
                max_tokens: Some(200),
            },
        ),
    }
}

/// What the one-line summary came to: the trimmed content, or a stock sentence where
/// the reply has none.
pub open spec fn sarcastic_line(outcome: OutcomeModel) -> Option<Seq<char>> {
    match outcome {
        OutcomeModel::Reply(reply) => Some(
            text::trimmed(
                match completion::first_content(reply) {
                    Some(content) => content,
                    None => "Summary unavailable."@,
                },
            ),
        ),
        OutcomeModel::Failed(_) => None,
    }
}

fn first_or(outcome: &Outcome, default: &str) -> (r: Option<String>)
    ensures
        text::viewed(r) == match outcome@ {
            OutcomeModel::Reply(reply) => Some(
                match completion::first_content(reply) {
                    Some(content) => content,
                    None => default@,
                },
            ),
            OutcomeModel::Failed(_) => None,
        },
{
    match outcome {
        Outcome::Reply(reply) => {
            if reply.choices.len() > 0 {
                assert(reply@.choices[0] == text::viewed(reply.choices@[0]));
                match &reply.choices[0] {
                    Some(content) => {
                        return Some(content.clone());
                    },
                    None => {},
                }
            }
            Some(default.to_owned())
        },
        Outcome::Failed(_) => None,
    }
}

/// What the one-line summary came to; none where the completion failed.
pub fn sarcastic_text(outcome: &Outcome) -> (r: Option<String>)
    ensures
        text::viewed(r) == sarcastic_line(outcome@),
{
    match first_or(outcome, "Summary unavailable.") {
        Some(content) => Some(text::trim(content.as_str())),
        None => None,
    }
}

pub open spec fn structured_ask(models: ModelsModel, content: Seq<char>, locale: Locale) -> Result<
    AskModel,
    Seq<char>,
> {
    match prompts::language_prompt(
        prompts::STRUCTURED_SUMMARY_USER_PROMPT@,
        language_name(locale),
        content,
    ) {
        Err(fault) => Err(completion::render_message(fault)),
        Ok(user) => Ok(
            AskModel {
                model: models.primary,
                system: prompts::STRUCTURED_SUMMARY_SYSTEM_PROMPT@,
                user,
                temperature_percent: None,
                max_tokens: Some(
                    match models.token_limit {
                        Some(limit) => limit,
                        None => 8000,
                    },
                ),
            },
        ),
    }
}

/// What to ask for the structured summary.
pub fn ask_structured(models: &RecapModels, content: &str, locale: Locale) -> (r: Result<
    Ask,
    String,
>)
    ensures
        ask_model(r) == structured_ask(models@, content@, locale),
{
    match prompts::render_structured_summary_user_prompt(summary_language(locale), content) {
        Err(fault) => Err(completion::render_error(fault)),
        Ok(user) => Ok(
            Ask {
                model: models.primary.clone(),
                system: prompts::STRUCTURED_SUMMARY_SYSTEM_PROMPT.to_owned(),
                user,
                temperature_percent: None,
                max_tokens: Some(
                    match models.token_limit {
                        Some(limit) => limit,
                        None => 8000,
                    },
                ),
            },
        ),
    }
}

/// The JSON text of the structured summary; none where the completion failed.
pub fn structured_text(outcome: &Outcome) -> (r: Option<String>)
    ensures
        text::viewed(r) == match outcome@ {
            OutcomeModel::Reply(reply) => Some(
                openai::unfenced(
                    match completion::first_content(reply) {
                        Some(content) => content,
                        None => "[]"@,
                    },
                ),
            ),
            OutcomeModel::Failed(_) => None,
        },
{
    match first_or(outcome, "[]") {
        Some(content) => Some(openai::extract_json_from_response(content.as_str())),
        None => None,
    }
}

/// The trimmed content of a check reply; none where it failed or has none.
pub fn check_text(outcome: &Outcome) -> (r: Option<String>)
    ensures
        text::viewed(r) == match outcome@ {
            OutcomeModel::Reply(reply) => match completion::first_content(reply) {
                Some(content) => Some(text::trimmed(content)),
                None => None,
            },
            OutcomeModel::Failed(_) => None,
        },
{
    match outcome {
        Outcome::Reply(reply) => {
            if reply.choices.len() > 0 {
                assert(reply@.choices[0] == text::viewed(reply.choices@[0]));
                match &reply.choices[0] {
                    Some(content) => {
                        return Some(text::trim(content.as_str()));
                    },
                    None => {},
                }
            }
            None
        },
        Outcome::Failed(_) => None,
    }
}

// ---------------------------------------------------------------------------
// Steps
// ---------------------------------------------------------------------------

/// A one-line summary as it came back, with the JSON shape of the trimmed text; no text
/// where none came.
#[derive(Debug, PartialEq, Eq)]
pub struct ReadLine {
    pub line: Option<String>,
    pub shape: Option<bool>,
}

/// The JSON shape of a line that may be missing.
pub open spec fn line_shape(line: Option<Seq<char>>) -> Option<bool> {
    match line {
        Some(found) => condensed::json_shape(text::trimmed(found)),
        None => None,
    }
}

/// Look at the shape of a line that came back.
pub fn read_line(line: Option<String>) -> (r: ReadLine)
    ensures
        r.line == line,
        r.shape == line_shape(text::viewed(line)),
{
    let shape: Option<bool> = match &line {
        Some(found) => parse_json(text::trim(found.as_str()).as_str()),
        None => None,
    };
    ReadLine { line, shape }
}

/// What is known so far of both summaries.
#[derive(Debug, PartialEq, Eq)]
pub struct DualProgress {
    /// The one-line summary, without text where it failed.
    pub condensed: ReadLine,
    /// The parsed topics and the JSON text that they came from; none where the
    /// completion failed. A text that does not parse gives no topics.
    pub segmented: Option<(Vec<TopicSummary>, String)>,
    pub line_repairs: Vec<ReadLine>,
    /// The topics of every repaired JSON text, none where it did not parse.
    pub topic_repairs: Vec<Option<Vec<TopicSummary>>>,
}

/// A repair, as far as it got.
pub enum Repair<T> {
    /// The model to ask next.
    Ask(Seq<char>),
    /// Repaired by the check model, or by its backup.
    Repaired(T, bool),
    Lost,
}

/// The check model and its first backup.
pub open spec fn checkers(models: ModelsModel) -> Seq<Seq<char>> {
    match models.check {
        None => Seq::empty(),
        Some(model) => if models.check_backups.len() > 0 {
            seq![model, models.check_backups[0]]
        } else {
            seq![model]
        },
    }
}

/// The repairs in order of the checkers: the first that is of use is taken.
pub open spec fn repair_of<T>(
    checkers: Seq<Seq<char>>,
    repairs: Seq<Option<T>>,
) -> Repair<T> {
    if repairs.len() >= 1 && repairs[0] is Some {
        Repair::Repaired(repairs[0]->0, false)
    } else if repairs.len() == 0 {
        Repair::Ask(checkers[0])
    } else if checkers.len() < 2 {
        Repair::Lost
    } else if repairs.len() == 1 {
        Repair::Ask(checkers[1])
    } else if repairs[1] is Some {
        Repair::Repaired(repairs[1]->0, true)
    } else {
        Repair::Lost
    }
}

/// The check trace after a repair.
pub open spec fn repair_traced<T>(
    trace: CheckTraceModel,
    checkers: Seq<Seq<char>>,
    repair: Repair<T>,
) -> CheckTraceModel {
    let tried = CheckTraceModel { attempted: true, ..trace };
    match repair {
        Repair::Ask(_) => trace,
        Repair::Repaired(_, by_backup) => CheckTraceModel {
            succeeded: true,
            backup_used: trace.backup_used || by_backup,
            backup_succeeded: trace.backup_succeeded || by_backup,
            ..tried
        },
        Repair::Lost => CheckTraceModel {
            failed: true,
            backup_used: trace.backup_used || checkers.len() >= 2,
            ..tried
        },
    }
}

/// The lines that repairs gave, without those that are malformed.
pub open spec fn usable_lines(repairs: Seq<ReadLine>) -> Seq<Option<Seq<char>>> {
    Seq::new(
        repairs.len(),
        |i: int|
            match repairs[i].line {
                Some(line) => if condensed::malformed(line@, repairs[i].shape) {
                    None
                } else {
                    Some(line@)
                },
                None => None,
            },
    )
}

pub open spec fn repaired_topics(repairs: Seq<Option<Vec<TopicSummary>>>) -> Seq<
    Option<Seq<TopicModel>>,
> {
    Seq::new(
        repairs.len(),
        |i: int|
            match repairs[i] {
                Some(topics) => Some(openai::topics_model(topics@)),
                None => None,
            },
    )
}

/// The one-line summary before any repair.
pub open spec fn first_summary(condensed: Option<Seq<char>>) -> Seq<char> {
    match condensed {
        Some(line) => if text::is_blank(line) {
            "Summary generation failed"@
        } else {
            line
        },
        None => "Summary generation failed"@,
    }
}

pub open spec fn repair_ask(model: Seq<char>, system: Seq<char>, user: Seq<char>) -> AskModel {
    AskModel { model, system, user, temperature_percent: None, max_tokens: Some(2000) }
}

#[verifier::ext_equal]
pub struct DualModel {
    pub condensed_summary: Seq<char>,
    pub segmented_summary: Seq<char>,
    pub segmented_summary_html: Seq<char>,
    pub condensed_model: Seq<char>,
    pub segmented_model: Seq<char>,
    pub check: CheckTraceModel,
    pub created_at: i64,
}

pub open spec fn output_model(output: RecapOutput) -> DualModel {
    DualModel {
        condensed_summary: output.condensed_summary@,
        segmented_summary: output.segmented_summary@,
        segmented_summary_html: output.segmented_summary_html@,
        condensed_model: output.trace.condensed_model@,
        segmented_model: output.trace.segmented_model@,
        check: output.trace.check@,
        created_at: output.created_at,
    }
}

/// What to do next.
#[derive(Debug, PartialEq, Eq)]
pub enum DualStep {
    /// Have the one-line summary repaired.
    RepairLine(Ask),
    /// Have the structured summary repaired.
    RepairTopics(Ask),
    Finished(RecapOutput),
}

#[verifier::ext_equal]
pub enum DualStepModel {
    RepairLine(AskModel),
    RepairTopics(AskModel),
    Finished(DualModel),
}

impl View for DualStep {
    type V = DualStepModel;

    open spec fn view(&self) -> DualStepModel {
        match *self {
            DualStep::RepairLine(ask) => DualStepModel::RepairLine(ask@),
            DualStep::RepairTopics(ask) => DualStepModel::RepairTopics(ask@),
            DualStep::Finished(output) => DualStepModel::Finished(output_model(output)),
        }
    }
}

pub open spec fn first_check_trace(models: ModelsModel) -> CheckTraceModel {
    CheckTraceModel {
        model: match models.check {
            Some(model) => model,
            None => Seq::empty(),
        },
        backup_model: if models.check_backups.len() > 0 {
            models.check_backups[0]
        } else {
            Seq::empty()
        },
        attempted: false,
        succeeded: false,
        failed: false,
        backup_used: false,
        backup_succeeded: false,
    }
}

/// The structured summary in both forms, or the same sentence twice where there is none.
pub open spec fn both_forms(
    topics: Seq<TopicModel>,
    labels: LabelsModel,
    chat_id: int,
) -> (Seq<char>, Seq<char>) {
    (
        openai::laid_out(topics, labels, chat_id, false),
        openai::laid_out(topics, labels, chat_id, true),
    )
}

pub open spec fn finished_dual(
    models: ModelsModel,
    condensed_summary: Seq<char>,
    forms: (Seq<char>, Seq<char>),
    check: CheckTraceModel,
    created_at: i64,
) -> DualStepModel {
    DualStepModel::Finished(
        DualModel {
            condensed_summary,
            segmented_summary: forms.0,
            segmented_summary_html: forms.1,
            condensed_model: models.condensed,
            segmented_model: models.primary,
            check,
            created_at,
        },
    )
}

/// Go on with the structured summary once the one-line summary is settled.
pub open spec fn with_topics(
    models: ModelsModel,
    progress: DualProgress,
    labels: LabelsModel,
    chat_id: int,
    created_at: i64,
    summary: Seq<char>,
    check: CheckTraceModel,
) -> DualStepModel {
    match progress.segmented {
        None => finished_dual(
            models,
            summary,
            ("Segmented summary generation failed"@, "Segmented summary generation failed"@),
            check,
            created_at,
        ),
        Some((topics, raw)) => if topics@.len() == 0 && raw@.len() > 0 && models.check is Some {
            let repair = repair_of(checkers(models), repaired_topics(progress.topic_repairs@));
            let traced = repair_traced(check, checkers(models), repair);
            match repair {
                Repair::Ask(model) => DualStepModel::RepairTopics(
                    repair_ask(
                        model,
                        prompts::CHECK_SUMMARY_JSON_SYSTEM_PROMPT@,
                        text::replaced(
                            prompts::CHECK_SUMMARY_JSON_USER_PROMPT@,
                            "{{raw_json}}"@,
                            raw@,
                        ),
                    ),
                ),
                Repair::Repaired(found, _) => finished_dual(
                    models,
                    summary,
                    both_forms(found, labels, chat_id),
                    traced,
                    created_at,
                ),
                Repair::Lost => finished_dual(
                    models,
                    summary,
                    both_forms(Seq::empty(), labels, chat_id),
                    traced,
                    created_at,
                ),
            }
        } else {
            finished_dual(
                models,
                summary,
                both_forms(openai::topics_model(topics@), labels, chat_id),
                check,
                created_at,
            )
        },
    }
}

/// What to do next: the one-line summary is settled first, then the structured one.
pub open spec fn dual_step(
    models: ModelsModel,
    progress: DualProgress,
    labels: LabelsModel,
    chat_id: int,
    created_at: i64,
) -> DualStepModel {
    let first = first_summary(text::viewed(progress.condensed.line));
    let shape = match progress.condensed.line {
        Some(line) => if text::is_blank(line@) {
            None
        } else {
            progress.condensed.shape
        },
        None => None,
    };
    let check = first_check_trace(models);
    if condensed::malformed(first, shape) && models.check is Some {
        let repair = repair_of(checkers(models), usable_lines(progress.line_repairs@));
        let traced = repair_traced(check, checkers(models), repair);
        match repair {
            Repair::Ask(model) => DualStepModel::RepairLine(
                repair_ask(
                    model,
                    prompts::CHECK_CONDENSED_OUTPUT_SYSTEM_PROMPT@,
                    text::replaced(
                        prompts::CHECK_CONDENSED_OUTPUT_USER_PROMPT@,
                        "{{ .RawOutput }}"@,
                        first,
                    ),
                ),
            ),
            Repair::Repaired(line, _) => with_topics(
                models,
                progress,
                labels,
                chat_id,
                created_at,
                line,
                traced,
            ),
            Repair::Lost => with_topics(
                models,
                progress,
                labels,
                chat_id,
                created_at,
                first,
                traced,
            ),
        }
    } else {
        with_topics(models, progress, labels, chat_id, created_at, first, check)
    }
}

/// Both summaries are settled once the check model and its first backup were asked for
/// each, and without a check model nothing is asked at all.
pub proof fn lemma_dual_settles(
    models: ModelsModel,
    progress: DualProgress,
    labels: LabelsModel,
    chat_id: int,
    created_at: i64,
)
    requires
        models.check is None || (progress.line_repairs@.len() >= checkers(models).len()
            && progress.topic_repairs@.len() >= checkers(models).len()),
    ensures
        dual_step(models, progress, labels, chat_id, created_at) is Finished,
{
    assert(usable_lines(progress.line_repairs@).len() == progress.line_repairs@.len());
    assert(repaired_topics(progress.topic_repairs@).len() == progress.topic_repairs@.len());
}

/// The checker that comes at `index`.
fn checker(models: &RecapModels, index: usize) -> (r: Option<String>)
    requires
        models@.check is Some,
        index <= 1,
    ensures
        text::viewed(r) == if index < checkers(models@).len() {
            Some(checkers(models@)[index as int])
        } else {
            None
        },
{
    if index == 0 {
        match &models.check {
            Some(model) => Some(model.clone()),
            None => None,
        }
    } else if models.check_backups.len() > 0 {
        assert(models@.check_backups[0] == models.check_backups@[0]@);
        Some(models.check_backups[0].clone())
    } else {
        None
    }
}

fn line_at(repairs: &Vec<ReadLine>, index: usize) -> (r: Option<String>)
    requires
        index < repairs.len(),
    ensures
        text::viewed(r) == usable_lines(repairs@)[index as int],
{
    match &repairs[index].line {
        Some(line) => if is_malformed(line.as_str(), repairs[index].shape) {
            None
        } else {
            Some(line.clone())
        },
        None => None,
    }
}

fn repair_request(model: String, system: &str, user: String) -> (ask: Ask)
    ensures
        ask@ == repair_ask(model@, system@, user@),
{
    Ask {
        model,
        system: system.to_owned(),
        user,
        temperature_percent: None,
        max_tokens: Some(2000),
    }
}

fn mark_repaired(check: &mut CheckModelTrace, by_backup: bool)
    ensures
        final(check)@ == (CheckTraceModel {
            attempted: true,
            succeeded: true,
            backup_used: old(check)@.backup_used || by_backup,
            backup_succeeded: old(check)@.backup_succeeded || by_backup,
            ..old(check)@
        }),
{
    check.attempted = true;
    check.succeeded = true;
    check.backup_used = check.backup_used || by_backup;
    check.backup_succeeded = check.backup_succeeded || by_backup;
}

fn mark_lost(check: &mut CheckModelTrace, backup_used: bool)
    ensures
        final(check)@ == (CheckTraceModel {
            attempted: true,
            failed: true,
            backup_used: old(check)@.backup_used || backup_used,
            ..old(check)@
        }),
{
    check.attempted = true;
    check.failed = true;
    check.backup_used = check.backup_used || backup_used;
}

fn finish(
    models: &RecapModels,
    condensed_summary: String,
    segmented_summary: String,
    segmented_summary_html: String,
    check: CheckModelTrace,
    created_at: i64,
) -> (step: DualStep)
    ensures
        step@ == finished_dual(
            models@,
            condensed_summary@,
            (segmented_summary@, segmented_summary_html@),
            check@,
            created_at,
        ),
{
    DualStep::Finished(
        RecapOutput {
            condensed_summary,
            segmented_summary,
            segmented_summary_html,
            trace: RecapTrace {
                condensed_model: models.condensed.clone(),
                segmented_model: models.primary.clone(),
                check,
            },
            created_at,
        },
    )
}

fn finish_with_topics(
    models: &RecapModels,
    condensed_summary: String,
    topics: &Vec<TopicSummary>,
    labels: &SummaryLabels,
    chat_id: i64,
    check: CheckModelTrace,
    created_at: i64,
) -> (step: DualStep)
    requires
        chat_id > i64::MIN,
    ensures
        step@ == finished_dual(
            models@,
            condensed_summary@,
            both_forms(openai::topics_model(topics@), labels@, chat_id as int),
            check@,
            created_at,
        ),
{
    let markdown: String = openai::format_topics_to_markdown(topics, labels, chat_id);
    let html: String = openai::format_topics_to_telegram_html(topics, labels, chat_id);
    finish(models, condensed_summary, markdown, html, check, created_at)
}

fn go_on_with_topics(
    models: &RecapModels,
    progress: &DualProgress,
    labels: &SummaryLabels,
    chat_id: i64,
    created_at: i64,
    summary: String,
    mut check: CheckModelTrace,
) -> (step: DualStep)
    requires
        chat_id > i64::MIN,
    ensures
        step@ == with_topics(
            models@,
            *progress,
            labels@,
            chat_id as int,
            created_at,
            summary@,
            check@,
        ),
{
    proof {
        reveal_strlit("{{raw_json}}");
    }
    match &progress.segmented {
        None => {
            let said: String = "Segmented summary generation failed".to_owned();
            finish(models, summary, said.clone(), said, check, created_at)
        },
        Some(pair) => {
            let topics: &Vec<TopicSummary> = &pair.0;
            let raw: &String = &pair.1;
            if topics.len() == 0 && raw.as_str().unicode_len() > 0 && models.check.is_some() {
                let repairs: &Vec<Option<Vec<TopicSummary>>> = &progress.topic_repairs;
                let ghost found = repaired_topics(repairs@);
                if repairs.len() >= 1 {
                    match &repairs[0] {
                        Some(fixed) => {
                            assert(found[0] == Some(openai::topics_model(fixed@)));
                            mark_repaired(&mut check, false);
                            return finish_with_topics(
                                models,
                                summary,
                                fixed,
                                labels,
                                chat_id,
                                check,
                                created_at,
                            );
                        },
                        None => {
                            assert(found[0] is None);
                        },
                    }
                }
                let next: usize = if repairs.len() == 0 {
                    0
                } else {
                    1
                };
                let second: bool = models.check_backups.len() > 0;
                if repairs.len() <= next {
                    match checker(models, next) {
                        Some(model) => {
                            let user: String = text::replace(
                                prompts::CHECK_SUMMARY_JSON_USER_PROMPT,
                                "{{raw_json}}",
                                raw.as_str(),
                            );
                            return DualStep::RepairTopics(
                                repair_request(
                                    model,
                                    prompts::CHECK_SUMMARY_JSON_SYSTEM_PROMPT,
                                    user,
                                ),
                            );
                        },
                        None => {},
                    }
                } else if second {
                    match &repairs[1] {
                        Some(fixed) => {
                            assert(found[1] == Some(openai::topics_model(fixed@)));
                            mark_repaired(&mut check, true);
                            return finish_with_topics(
                                models,
                                summary,
                                fixed,
                                labels,
                                chat_id,
                                check,
                                created_at,
                            );
                        },
                        None => {
                            assert(found[1] is None);
                        },
                    }
                }
                mark_lost(&mut check, second);
                let none: Vec<TopicSummary> = Vec::new();
                assert(openai::topics_model(none@) =~= Seq::<TopicModel>::empty());
                finish_with_topics(models, summary, &none, labels, chat_id, check, created_at)
            } else {
                finish_with_topics(models, summary, topics, labels, chat_id, check, created_at)
            }
        },
    }
}

/// What to do next, given what is known so far of both summaries.
pub fn generate_dual_recap_step(
    models: &RecapModels,
    progress: &DualProgress,
    labels: &SummaryLabels,
    chat_id: i64,
    created_at: i64,
) -> (step: DualStep)
    requires
        chat_id > i64::MIN,
    ensures
        step@ == dual_step(models@, *progress, labels@, chat_id as int, created_at),
{
    proof {
        reveal_strlit("{{ .RawOutput }}");
    }
    let mut check = CheckModelTrace::default();
    match &models.check {
        Some(model) => {
            check.model = model.clone();
        },
        None => {},
    }
    if models.check_backups.len() > 0 {
        assert(models@.check_backups[0] == models.check_backups@[0]@);
        check.backup_model = models.check_backups[0].clone();
    }
    assert(check@ =~= first_check_trace(models@));
    let mut shape: Option<bool> = None;
    let first: String = match &progress.condensed.line {
        Some(line) => if text::blank(line.as_str()) {
            "Summary generation failed".to_owned()
        } else {
            shape = progress.condensed.shape;
            line.clone()
        },
        None => "Summary generation failed".to_owned(),
    };
    if !(is_malformed(first.as_str(), shape) && models.check.is_some()) {
        return go_on_with_topics(models, progress, labels, chat_id, created_at, first, check);
    }
    let repairs: &Vec<ReadLine> = &progress.line_repairs;
    if repairs.len() >= 1 {
        match line_at(repairs, 0) {
            Some(line) => {
                mark_repaired(&mut check, false);
                return go_on_with_topics(
                    models,
                    progress,
                    labels,
                    chat_id,
                    created_at,
                    line,
                    check,
                );
            },
            None => {},
        }
    }
    let next: usize = if repairs.len() == 0 {
        0
    } else {
        1
    };
    let second: bool = models.check_backups.len() > 0;
    if repairs.len() <= next {
        match checker(models, next) {
            Some(model) => {
                let user: String = text::replace(
                    prompts::CHECK_CONDENSED_OUTPUT_USER_PROMPT,
                    "{{ .RawOutput }}",
                    first.as_str(),
                );
                return DualStep::RepairLine(
                    repair_request(
                        model,
                        prompts::CHECK_CONDENSED_OUTPUT_SYSTEM_PROMPT,
                        user,
                    ),
                );
            },
            None => {},
        }
    } else if second {
        match line_at(repairs, 1) {
            Some(line) => {
                mark_repaired(&mut check, true);
                return go_on_with_topics(
                    models,
                    progress,
                    labels,
                    chat_id,
                    created_at,
                    line,
                    check,
                );
            },
            None => {},
        }
    }
    mark_lost(&mut check, second);
    go_on_with_topics(models, progress, labels, chat_id, created_at, first, check)
}

/// There is nothing to summarize.
#[derive(Debug, Clone, Copy, PartialEq, Eq, Structural)]
pub struct NoMessages;

impl NoMessages {
    pub fn message(self) -> (out: &'static str)
        ensures
            out@ == "no messages to summarize"@,
    {
        "no messages to summarize"
    }
}

/// The transcript to summarize; there is none where no message has text.
pub fn dual_transcript(histories: &Vec<ChatHistory>) -> (r: Result<String, NoMessages>)
    ensures
        ({
            let all = text::join_spec(
                openai::transcript_lines(openai::histories_model(histories@), 0),
                "\n"@,
            );
            match r {
                Ok(transcript) => all.len() > 0 && transcript@ == all,
                Err(_) => all.len() == 0,
            }
        }),
{
    let transcript: String = openai::format_messages(histories);
    if transcript.as_str().unicode_len() == 0 {
        Err(NoMessages)
    } else {
        Ok(transcript)
    }
}

} // verus!
