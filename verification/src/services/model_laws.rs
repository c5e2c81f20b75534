//! What holds of the work with models: who is asked and in which order, whose answer is
//! taken, and what is written down of it.

use vstd::prelude::*;

use crate::config::Locale;
use crate::services::completion::{self, ModelsModel, OutcomeModel, ReplyModel};
use crate::services::condensed::{self, EventModel};
use crate::services::detailed;
use crate::services::dual::{self, DualProgress, DualStepModel, Repair};
use crate::services::openai::{self, LabelsModel, TopicModel};
use crate::services::prompts;
use crate::text;

verus! {

// ---------------------------------------------------------------------------
// Replies
// ---------------------------------------------------------------------------

/// Of a reply the first choice counts, with the tokens that it reports, each kind in its
/// place, under the model that it names.
pub proof fn lemma_what_counts_of_a_reply(reply: ReplyModel, requested: Seq<char>)
    ensures
        reply.choices.len() == 0 ==> completion::content_of(reply).len() == 0,
        reply.choices.len() > 0 && reply.choices[0] is Some ==> completion::content_of(reply)
            == reply.choices[0]->0,
        !text::is_blank(reply.model) ==> completion::resolved_name(reply, requested) == reply.model,
        text::is_blank(reply.model) ==> completion::resolved_name(reply, requested) == requested,
        reply.usage is Some ==> completion::usage_of(reply).prompt_tokens
            == reply.usage->0.prompt_tokens && completion::usage_of(reply).completion_tokens
            == reply.usage->0.completion_tokens && completion::usage_of(reply).total_tokens
            == reply.usage->0.total_tokens,
        reply.usage is None ==> completion::usage_of(reply).total_tokens == 0,
{
}

// ---------------------------------------------------------------------------
// The detailed recap
// ---------------------------------------------------------------------------

/// Whether an outcome has something to say.
pub open spec fn says_something(outcome: OutcomeModel) -> bool {
    outcome is Reply && !text::is_blank(completion::content_of(outcome->Reply_0))
}

/// The model that is asked at a place: the primary one, then its backups.
pub open spec fn asked_at(models: ModelsModel, place: int) -> Seq<char> {
    if place == 0 {
        models.primary
    } else {
        models.primary_backups[place - 1]
    }
}

/// The prompt of a slice, in the language that is asked for, or else in the configured one.
pub open spec fn prompted(models: ModelsModel, language: Seq<char>, content: Seq<char>) -> Result<
    Seq<char>,
    crate::template::RenderFault,
> {
    prompts::language_prompt(
        prompts::CHAT_HISTORY_SUMMARIZATION_USER_PROMPT@,
        if language.len() > 0 {
            language
        } else {
            models.prompts.summarization_language
        },
        content,
    )
}

/// Models are asked one after the other while none had anything to say, each with the
/// prompt of the slice, and no one else is asked.
pub proof fn lemma_models_are_asked_in_turn(
    models: ModelsModel,
    language: Seq<char>,
    content: Seq<char>,
    outcomes: Seq<OutcomeModel>,
)
    requires
        prompted(models, language, content) is Ok,
        outcomes.len() <= models.primary_backups.len(),
        forall|k: int| 0 <= k < outcomes.len() ==> !says_something(#[trigger] outcomes[k]),
    ensures
        ({
            let step = detailed::detailed_step(models, language, content, outcomes);
            &&& step is Ask
            &&& step->Ask_0.model == asked_at(models, outcomes.len() as int)
            &&& step->Ask_0.user == prompted(models, language, content)->Ok_0
            &&& step->Ask_0.system == prompts::CHAT_HISTORY_SUMMARIZATION_SYSTEM_PROMPT@
            &&& step->Ask_0.max_tokens is None
        }),
{
    if outcomes.len() > 0 {
        assert(!says_something(outcomes[0]));
        lemma_nothing_said(outcomes, 1, outcomes.len() as int);
    }
}

proof fn lemma_nothing_said(outcomes: Seq<OutcomeModel>, i: int, end: int)
    requires
        0 <= i <= end <= outcomes.len(),
        forall|k: int| 0 <= k < outcomes.len() ==> !says_something(#[trigger] outcomes[k]),
    ensures
        detailed::first_usable(outcomes, i, end) is None,
    decreases end - i,
{
    if i < end {
        assert(!says_something(outcomes[i]));
        lemma_nothing_said(outcomes, i + 1, end);
    }
}

proof fn lemma_first_said(outcomes: Seq<OutcomeModel>, i: int, end: int, place: int)
    requires
        0 <= i <= place < end <= outcomes.len(),
        says_something(outcomes[place]),
        forall|k: int| 0 <= k < place ==> !says_something(#[trigger] outcomes[k]),
    ensures
        detailed::first_usable(outcomes, i, end) == Some(place),
    decreases end - i,
{
    if i < place {
        assert(!says_something(outcomes[i]));
        lemma_first_said(outcomes, i + 1, end, place);
    }
}

/// The first answer that says something is taken as it is, with its tokens, and is written
/// down under the model that gave it; whether that was a backup is written down too.
pub proof fn lemma_first_answer_is_taken(
    models: ModelsModel,
    language: Seq<char>,
    content: Seq<char>,
    outcomes: Seq<OutcomeModel>,
    place: int,
)
    requires
        prompted(models, language, content) is Ok,
        0 <= place < outcomes.len(),
        place <= models.primary_backups.len(),
        says_something(outcomes[place]),
        forall|k: int| 0 <= k < place ==> !says_something(#[trigger] outcomes[k]),
    ensures
        ({
            let step = detailed::detailed_step(models, language, content, outcomes);
            let reply = outcomes[place]->Reply_0;
            let name = completion::resolved_name(reply, asked_at(models, place));
            let trace = step->Finished_trace;
            &&& step is Finished
            &&& step->Finished_content == completion::content_of(reply)
            &&& step->usage == completion::usage_of(reply)
            &&& step->record.operation == "Summarize Chat Histories"@
            &&& step->record.usage == completion::usage_of(reply)
            &&& step->record.model == name
            &&& trace.primary_model == models.primary
            &&& trace.backup_used == (place > 0)
            &&& trace.backup_succeeded == (place > 0)
            &&& trace.primary_failed == (place > 0)
            &&& place == 0 ==> trace.primary_used_model == name
            &&& place > 0 ==> trace.backup_used_model == name && trace.primary_used_model.len() == 0
            &&& place > 0 && outcomes[0] is Failed ==> trace.primary_failure_reason
                == outcomes[0]->Failed_0
        }),
{
    if place > 0 {
        assert(!says_something(outcomes[0]));
        let tried = detailed::smaller(outcomes.len() - 1, models.primary_backups.len() as int);
        lemma_first_said(outcomes, 1, 1 + tried, place);
    }
}

/// Where no model has anything to say, the slice fails for the last reason.
pub proof fn lemma_last_reason_is_given(
    models: ModelsModel,
    language: Seq<char>,
    content: Seq<char>,
    outcomes: Seq<OutcomeModel>,
)
    requires
        prompted(models, language, content) is Ok,
        outcomes.len() == models.primary_backups.len() + 1,
        forall|k: int| 0 <= k < outcomes.len() ==> !says_something(#[trigger] outcomes[k]),
    ensures
        ({
            let step = detailed::detailed_step(models, language, content, outcomes);
            let last = outcomes.last();
            &&& step is Failed
            &&& last is Failed ==> step->source == last->Failed_0
            &&& last is Reply && outcomes.len() == 1 ==> step->source
                == "primary model returned empty recap content"@
            &&& last is Reply && outcomes.len() > 1 ==> step->source
                == "backup model returned empty recap content"@
            &&& step->Failed_trace.primary_failed
            &&& step->Failed_trace.backup_used == (outcomes.len() > 1)
            &&& !step->Failed_trace.backup_succeeded
        }),
{
    assert(!says_something(outcomes[0]));
    assert(!says_something(outcomes.last()));
    lemma_nothing_said(outcomes, 1, outcomes.len() as int);
}

// ---------------------------------------------------------------------------
// The condensed recap
// ---------------------------------------------------------------------------

/// Whether an event has one line in shape.
pub open spec fn in_shape(event: EventModel) -> bool {
    event.outcome is Reply && condensed::judged(
        completion::content_of(event.outcome->Reply_0),
        event.shape,
    ) is Ok
}

/// The line of an event in shape.
pub open spec fn line_of(event: EventModel) -> Seq<char> {
    condensed::judged(completion::content_of(event.outcome->Reply_0), event.shape)->Ok_0
}

/// The condensed recap is asked of its own model first, in its own prompts, and taken
/// from it where it is in shape.
pub proof fn lemma_condensed_model_comes_first(
    models: ModelsModel,
    content: Seq<char>,
    events: Seq<EventModel>,
)
    requires
        content.len() > 0,
        prompts::history_prompt(models.prompts.sarcastic_user_prompt, content) is Ok,
    ensures
        ({
            let step = condensed::condensed_step(models, content, events);
            &&& events.len() == 0 ==> step is Ask && step->Ask_0.model == models.condensed
                && step->Ask_0.system == models.prompts.sarcastic_system_prompt && step->Ask_0.user
                == prompts::history_prompt(models.prompts.sarcastic_user_prompt, content)->Ok_0
                && step->Ask_0.temperature_percent == Some(70u32)
            &&& events.len() > 0 && in_shape(events[0]) && !models.force_condensed_primary_failure
                ==> {
                let reply = events[0].outcome->Reply_0;
                let name = completion::resolved_name(reply, models.condensed);
                &&& step is Finished
                &&& step->Finished_content == line_of(events[0])
                &&& step->Finished_trace.generation.primary_used_model == name
                &&& step->Finished_trace.generation.primary_model == models.condensed
                &&& !step->Finished_trace.generation.backup_used
                &&& !step->Finished_trace.check.attempted
                &&& step->record is Some
                &&& step->record->0.operation == "Sarcastic Condense"@
                &&& step->record->0.usage == completion::usage_of(reply)
                &&& step->record->0.model == name
            }
        }),
{
    if events.len() > 0 && in_shape(events[0]) {
        let said = completion::content_of(events[0].outcome->Reply_0);
        if said.len() == 0 {
            assert(said =~= Seq::<char>::empty());
        }
    }
}

/// Where its own model fails, the backups are asked in order, and the first line in shape
/// is taken.
pub proof fn lemma_condensed_backups_in_turn(
    models: ModelsModel,
    content: Seq<char>,
    events: Seq<EventModel>,
    place: int,
)
    requires
        content.len() > 0,
        prompts::history_prompt(models.prompts.sarcastic_user_prompt, content) is Ok,
        1 <= place <= events.len(),
        place <= models.condensed_backups.len(),
        !in_shape(events[0]),
        forall|k: int| 0 <= k < place ==> !in_shape(#[trigger] events[k]),
    ensures
        ({
            let step = condensed::condensed_step(models, content, events);
            &&& place == events.len() ==> step is Ask && step->Ask_0.model
                == models.condensed_backups[place - 1] && step->Ask_0.system
                == models.prompts.sarcastic_system_prompt && step->Ask_0.user
                == prompts::history_prompt(models.prompts.sarcastic_user_prompt, content)->Ok_0
            &&& place < events.len() && in_shape(events[place]) ==> {
                let reply = events[place].outcome->Reply_0;
                let name = completion::resolved_name(reply, models.condensed_backups[place - 1]);
                &&& step is Finished
                &&& step->Finished_content == line_of(events[place])
                &&& step->Finished_trace.generation.backup_used
                &&& step->Finished_trace.generation.backup_succeeded
                &&& step->Finished_trace.generation.backup_used_model == name
                &&& step->Finished_trace.generation.primary_failed
                &&& step->record is Some
                &&& step->record->0.usage == completion::usage_of(reply)
                &&& step->record->0.model == name
            }
        }),
{
    let count = models.condensed_backups.len() as int;
    let tried = detailed::smaller(events.len() - 1, count);
    if place < events.len() && in_shape(events[place]) {
        lemma_first_shaped(events, 1, 1 + tried, place);
    } else if place == events.len() {
        lemma_none_shaped(events, 1, 1 + tried);
    }
}

proof fn lemma_first_shaped(events: Seq<EventModel>, i: int, end: int, place: int)
    requires
        0 <= i <= place < end <= events.len(),
        in_shape(events[place]),
        forall|k: int| 0 <= k < place ==> !in_shape(#[trigger] events[k]),
    ensures
        condensed::first_line(events, i, end) == Some(place),
    decreases end - i,
{
    if i < place {
        assert(!in_shape(events[i]));
        lemma_first_shaped(events, i + 1, end, place);
    }
}

proof fn lemma_none_shaped(events: Seq<EventModel>, i: int, end: int)
    requires
        0 <= i <= end <= events.len(),
        forall|k: int| 0 <= k < events.len() ==> !in_shape(#[trigger] events[k]),
    ensures
        condensed::first_line(events, i, end) is None,
    decreases end - i,
{
    if i < end {
        assert(!in_shape(events[i]));
        lemma_none_shaped(events, i + 1, end);
    }
}

/// Where its own model says something out of shape and there are no backups, the check
/// model is given what was said, and its line is taken; what is written down stays with
/// the model that was checked.
pub proof fn lemma_check_repairs_what_was_said(
    models: ModelsModel,
    content: Seq<char>,
    events: Seq<EventModel>,
)
    requires
        content.len() > 0,
        prompts::history_prompt(models.prompts.sarcastic_user_prompt, content) is Ok,
        models.condensed_backups.len() == 0,
        models.check is Some,
        !models.force_check_failure,
        events.len() > 0,
        events[0].outcome is Reply,
        !text::is_blank(completion::content_of(events[0].outcome->Reply_0)),
        !in_shape(events[0]),
    ensures
        ({
            let step = condensed::condensed_step(models, content, events);
            let reply = events[0].outcome->Reply_0;
            &&& events.len() == 1 ==> {
                &&& step is Ask
                &&& step->Ask_0.model == models.check->0
                &&& step->Ask_0.system == prompts::CHECK_CONDENSED_OUTPUT_SYSTEM_PROMPT@
                &&& step->Ask_0.user == text::replaced(
                    prompts::CHECK_CONDENSED_OUTPUT_USER_PROMPT@,
                    "{{ .RawOutput }}"@,
                    completion::content_of(reply),
                )
            }
            &&& events.len() > 1 && in_shape(events[1])
                && events[1].outcome->Reply_0.choices.len() > 0 ==> {
                &&& step is Finished
                &&& step->Finished_content == line_of(events[1])
                &&& step->Finished_trace.check.attempted
                &&& step->Finished_trace.check.succeeded
                &&& step->Finished_trace.check.generation.primary_used_model
                    == completion::resolved_name(events[1].outcome->Reply_0, models.check->0)
                &&& step->Finished_trace.generation.primary_failed
                &&& step->record is Some
                &&& step->record->0.usage == completion::usage_of(reply)
                &&& step->record->0.model == completion::resolved_name(reply, models.condensed)
            }
            &&& events.len() > 1 && !in_shape(events[1]) && models.check_backups.len() > 0
                && events.len() == 2 ==> step is Ask && step->Ask_0.model == models.check_backups[0]
            &&& events.len() > 1 && !in_shape(events[1]) && models.check_backups.len() == 0
                ==> step is Failed && !step->Failed_trace.check.succeeded
                && step->Failed_trace.check.attempted
        }),
{
    let said = completion::content_of(events[0].outcome->Reply_0);
    if said.len() == 0 {
        assert(said =~= Seq::<char>::empty());
    }
}

/// One line is in shape where it is the only one, is no heading, no list item and no
/// JSON, and holds no fence.
pub proof fn lemma_shape_of_a_line(content: Seq<char>, shape: Option<bool>)
    ensures
        ({
            let said = text::trimmed(content);
            let lines = condensed::output_lines(said);
            let json = shape == Some(true) || ("{"@.is_prefix_of(said) && "}"@.is_suffix_of(said))
                || ("["@.is_prefix_of(said) && "]"@.is_suffix_of(said));
            condensed::judged(content, shape) is Ok <==> said.len() > 0 && !text::occurs(
                said,
                "```"@,
            ) && !json && lines.len() == 1 && !"#"@.is_prefix_of(lines[0]) && !"- "@.is_prefix_of(
                lines[0],
            ) && !"* "@.is_prefix_of(lines[0])
        }),
{
}

// ---------------------------------------------------------------------------
// Both summaries at once
// ---------------------------------------------------------------------------

/// The one-line summary is asked of the condensed model, the structured one of the
/// primary model, in the language of the reader.
pub proof fn lemma_who_is_asked_for_both(models: ModelsModel, content: Seq<char>, locale: Locale)
    ensures
        dual::sarcastic_ask(models, content) is Ok ==> dual::sarcastic_ask(models, content)->Ok_0.model
            == models.condensed && dual::sarcastic_ask(models, content)->Ok_0.max_tokens == Some(
            200u32,
        ) && dual::sarcastic_ask(models, content)->Ok_0.system
            == models.prompts.sarcastic_system_prompt,
        dual::structured_ask(models, content, locale) is Ok ==> {
            let ask = dual::structured_ask(models, content, locale)->Ok_0;
            &&& ask.model == models.primary
            &&& ask.user == prompts::language_prompt(
                prompts::STRUCTURED_SUMMARY_USER_PROMPT@,
                match locale {
                    Locale::En => "English"@,
                    Locale::ZhHans => "Simplified Chinese"@,
                    Locale::ZhHant => "Traditional Chinese"@,
                },
                content,
            )->Ok_0
            &&& models.token_limit is Some ==> ask.max_tokens == models.token_limit
            &&& models.token_limit is None ==> ask.max_tokens == Some(8000u32)
        },
{
}

/// The check model is asked first and its backup second; the first repair that is of use
/// is taken, and after both were asked in vain nothing is.
pub proof fn lemma_repairs_in_turn<T>(checkers: Seq<Seq<char>>, repairs: Seq<Option<T>>)
    requires
        1 <= checkers.len() <= 2,
    ensures
        ({
            let repair = dual::repair_of(checkers, repairs);
            &&& repairs.len() == 0 ==> repair == Repair::<T>::Ask(checkers[0])
            &&& repairs.len() >= 1 && repairs[0] is Some ==> repair == Repair::Repaired(
                repairs[0]->0,
                false,
            )
            &&& repairs.len() == 1 && repairs[0] is None && checkers.len() == 2 ==> repair
                == Repair::<T>::Ask(checkers[1])
            &&& repairs.len() >= 2 && repairs[0] is None && checkers.len() == 2 && repairs[1] is Some
                ==> repair == Repair::Repaired(repairs[1]->0, true)
            &&& repairs.len() >= 2 && repairs[0] is None && checkers.len() == 2 && repairs[1] is None
                ==> repair is Lost
            &&& repairs.len() >= 1 && repairs[0] is None && checkers.len() == 1 ==> repair is Lost
        }),
{
}

/// Where nothing needs a repair, the line is taken as it came, and the topics are laid out
/// in both forms, under the models that gave them.
pub proof fn lemma_both_summaries_as_they_came(
    models: ModelsModel,
    progress: DualProgress,
    labels: LabelsModel,
    chat_id: int,
    created_at: i64,
)
    requires
        progress.condensed.line is Some,
        !text::is_blank(progress.condensed.line->0@),
        models.check is None || !condensed::malformed(
            progress.condensed.line->0@,
            progress.condensed.shape,
        ),
        progress.segmented is Some,
        (progress.segmented->0).0@.len() > 0,
    ensures
        ({
            let step = dual::dual_step(models, progress, labels, chat_id, created_at);
            let topics = openai::topics_model((progress.segmented->0).0@);
            &&& step is Finished
            &&& step->Finished_0.condensed_summary == progress.condensed.line->0@
            &&& step->Finished_0.segmented_summary == openai::laid_out(
                topics,
                labels,
                chat_id,
                false,
            )
            &&& step->Finished_0.segmented_summary_html == openai::laid_out(
                topics,
                labels,
                chat_id,
                true,
            )
            &&& step->Finished_0.condensed_model == models.condensed
            &&& step->Finished_0.segmented_model == models.primary
            &&& step->Finished_0.created_at == created_at
            &&& !step->Finished_0.check.attempted
        }),
{
}

/// A line that is malformed is given to the check model, and its repair is taken; where
/// all repairs fail, the line stays.
pub proof fn lemma_malformed_lines_are_repaired(
    models: ModelsModel,
    progress: DualProgress,
    labels: LabelsModel,
    chat_id: int,
    created_at: i64,
)
    requires
        models.check is Some,
        progress.condensed.line is Some,
        !text::is_blank(progress.condensed.line->0@),
        condensed::malformed(progress.condensed.line->0@, progress.condensed.shape),
        progress.segmented is None,
    ensures
        ({
            let step = dual::dual_step(models, progress, labels, chat_id, created_at);
            let repairs = progress.line_repairs@;
            let usable = |i: int|
                repairs[i].line is Some && !condensed::malformed(
                    repairs[i].line->0@,
                    repairs[i].shape,
                );
            &&& repairs.len() == 0 ==> step is RepairLine && step->RepairLine_0.model
                == models.check->0 && step->RepairLine_0.user == text::replaced(
                prompts::CHECK_CONDENSED_OUTPUT_USER_PROMPT@,
                "{{ .RawOutput }}"@,
                progress.condensed.line->0@,
            )
            &&& repairs.len() > 0 && usable(0) ==> step is Finished
                && step->Finished_0.condensed_summary == repairs[0].line->0@
                && step->Finished_0.check.succeeded
            &&& repairs.len() == 1 && !usable(0) && models.check_backups.len() > 0
                ==> step is RepairLine && step->RepairLine_0.model == models.check_backups[0]
            &&& repairs.len() == 1 && !usable(0) && models.check_backups.len() == 0
                ==> step is Finished && step->Finished_0.condensed_summary
                == progress.condensed.line->0@ && step->Finished_0.check.failed
            &&& step is Finished ==> step->Finished_0.segmented_summary
                == "Segmented summary generation failed"@
        }),
{
    let lines = dual::usable_lines(progress.line_repairs@);
    assert(lines.len() == progress.line_repairs@.len());
    if lines.len() > 0 {
        assert(lines[0] is Some <==> (progress.line_repairs@[0].line is Some
            && !condensed::malformed(
            progress.line_repairs@[0].line->0@,
            progress.line_repairs@[0].shape,
        )));
    }
}

/// Topics that cannot be read are given to the check model as they came, and then to its
/// backup; what either made of them is laid out, and where neither made anything, nothing
/// is.
pub proof fn lemma_unreadable_topics_are_repaired(
    models: ModelsModel,
    progress: DualProgress,
    labels: LabelsModel,
    chat_id: int,
    created_at: i64,
)
    requires
        models.check is Some,
        progress.condensed.line is Some,
        !text::is_blank(progress.condensed.line->0@),
        !condensed::malformed(progress.condensed.line->0@, progress.condensed.shape),
        progress.segmented is Some,
        (progress.segmented->0).0@.len() == 0,
        (progress.segmented->0).1@.len() > 0,
    ensures
        ({
            let step = dual::dual_step(models, progress, labels, chat_id, created_at);
            let raw = (progress.segmented->0).1@;
            let repairs = progress.topic_repairs@;
            let backed = models.check_backups.len() > 0;
            &&& repairs.len() == 0 ==> step is RepairTopics && step->RepairTopics_0.model
                == models.check->0 && step->RepairTopics_0.user == text::replaced(
                prompts::CHECK_SUMMARY_JSON_USER_PROMPT@,
                "{{raw_json}}"@,
                raw,
            )
            &&& repairs.len() > 0 && repairs[0] is Some ==> lays_out(
                step,
                openai::topics_model(repairs[0]->0@),
                labels,
                chat_id,
            ) && step->Finished_0.check.succeeded && !step->Finished_0.check.backup_used
            &&& repairs.len() == 1 && repairs[0] is None && backed ==> step is RepairTopics
                && step->RepairTopics_0.model == models.check_backups[0]
                && step->RepairTopics_0.user == text::replaced(
                prompts::CHECK_SUMMARY_JSON_USER_PROMPT@,
                "{{raw_json}}"@,
                raw,
            )
            &&& repairs.len() == 2 && repairs[0] is None && repairs[1] is Some && backed
                ==> lays_out(step, openai::topics_model(repairs[1]->0@), labels, chat_id)
                && step->Finished_0.check.backup_succeeded
            &&& repairs.len() == 1 && repairs[0] is None && !backed ==> lays_out(
                step,
                Seq::empty(),
                labels,
                chat_id,
            ) && step->Finished_0.check.failed
            &&& step is Finished ==> step->Finished_0.condensed_summary
                == progress.condensed.line->0@
        }),
{
    let repaired = dual::repaired_topics(progress.topic_repairs@);
    assert(repaired.len() == progress.topic_repairs@.len());
    if repaired.len() > 0 {
        assert(repaired[0] is Some <==> progress.topic_repairs@[0] is Some);
    }
    if repaired.len() > 1 {
        assert(repaired[1] is Some <==> progress.topic_repairs@[1] is Some);
    }
}

/// Whether a step ends with these topics, in both forms.
pub open spec fn lays_out(
    step: DualStepModel,
    topics: Seq<TopicModel>,
    labels: LabelsModel,
    chat_id: int,
) -> bool {
    &&& step is Finished
    &&& step->Finished_0.segmented_summary == openai::laid_out(topics, labels, chat_id, false)
    &&& step->Finished_0.segmented_summary_html == openai::laid_out(topics, labels, chat_id, true)
}

} // verus!
