//! Chat completions as plain values: what is asked of a model, and what came back.

use vstd::prelude::*;

use crate::config::{self, CondensedPromptConfig, PromptsModel, RecapModel, RecapOpenAiConfig};
use crate::db::models::TokenUsage;
use crate::services::prompts::{self, PromptConfig, PromptModel};
use crate::template::RenderFault;
use crate::text;

verus! {

/// Requests per second that the completion limiter lets through.
pub const GO_OPENAI_REQUESTS_PER_SECOND: u32 = 1;

pub const SUMMARIZE_ANY_OPERATION: &'static str = "Summarize Any";

pub const SUMMARIZE_ONE_CHAT_HISTORY_OPERATION: &'static str = "Summarize One Chat History";

/// What is reported where a text could not be summarized.
pub const SUMMARIZE_ANY_FAILED: &'static str = "summarize any failed";

/// What is reported where a long message could not be shortened.
pub const SUMMARIZE_ONE_CHAT_HISTORY_FAILED: &'static str = "summarize one chat history failed";

pub const SUMMARIZE_CHAT_HISTORIES_OPERATION: &'static str = "Summarize Chat Histories";

pub const SARCASTIC_CONDENSE_OPERATION: &'static str = "Sarcastic Condense";

// ---------------------------------------------------------------------------
// Requests
// ---------------------------------------------------------------------------

/// One completion to ask for: a system message, a user message, in hundredths the
/// temperature where one is set, and the token ceiling where there is one.
#[derive(Debug, PartialEq, Eq)]
pub struct Ask {
    pub model: String,
    pub system: String,
    pub user: String,
    pub temperature_percent: Option<u32>,
    pub max_tokens: Option<u32>,
}

#[verifier::ext_equal]
pub struct AskModel {
    pub model: Seq<char>,
    pub system: Seq<char>,
    pub user: Seq<char>,
    pub temperature_percent: Option<u32>,
    pub max_tokens: Option<u32>,
}

impl View for Ask {
    type V = AskModel;

    open spec fn view(&self) -> AskModel {
        AskModel {
            model: self.model@,
            system: self.system@,
            user: self.user@,
            temperature_percent: self.temperature_percent,
            max_tokens: self.max_tokens,
        }
    }
}

// ---------------------------------------------------------------------------
// Replies
// ---------------------------------------------------------------------------

/// Token counts as a completion reports them.
#[derive(Debug, Clone, Copy, PartialEq, Eq, Structural)]
pub struct ReportedUsage {
    pub prompt_tokens: u32,
    pub completion_tokens: u32,
    pub total_tokens: u32,
}

/// A completion: the model that answered, the content of every choice, and the usage.
#[derive(Debug, PartialEq, Eq)]
pub struct CompletionReply {
    pub model: String,
    pub choices: Vec<Option<String>>,
    pub usage: Option<ReportedUsage>,
}

#[verifier::ext_equal]
pub struct ReplyModel {
    pub model: Seq<char>,
    pub choices: Seq<Option<Seq<char>>>,
    pub usage: Option<ReportedUsage>,
}

/// The contents of the choices.
pub open spec fn choices_model(choices: Seq<Option<String>>) -> Seq<Option<Seq<char>>> {
    Seq::new(choices.len(), |i: int| text::viewed(choices[i]))
}

impl View for CompletionReply {
    type V = ReplyModel;

    open spec fn view(&self) -> ReplyModel {
        ReplyModel {
            model: self.model@,
            choices: choices_model(self.choices@),
            usage: self.usage,
        }
    }
}

/// What a request came to: a reply, or the text of the error.
#[derive(Debug, PartialEq, Eq)]
pub enum Outcome {
    Reply(CompletionReply),
    Failed(String),
}

pub enum OutcomeModel {
    Reply(ReplyModel),
    Failed(Seq<char>),
}

impl View for Outcome {
    type V = OutcomeModel;

    open spec fn view(&self) -> OutcomeModel {
        match *self {
            Outcome::Reply(reply) => OutcomeModel::Reply(reply@),
            Outcome::Failed(error) => OutcomeModel::Failed(error@),
        }
    }
}

/// The models of a list of outcomes.
pub open spec fn outcomes_model(outcomes: Seq<Outcome>) -> Seq<OutcomeModel> {
    Seq::new(outcomes.len(), |i: int| outcomes[i]@)
}

/// The content of the first choice, if it has one.
pub open spec fn first_content(reply: ReplyModel) -> Option<Seq<char>> {
    if reply.choices.len() > 0 {
        reply.choices[0]
    } else {
        None
    }
}

/// The content of the first choice, empty where there is none.
pub open spec fn content_of(reply: ReplyModel) -> Seq<char> {
    config::or_text(first_content(reply), Seq::empty())
}

/// The model that answered; the requested one where the reply names none.
pub open spec fn resolved_name(reply: ReplyModel, requested: Seq<char>) -> Seq<char> {
    if text::is_blank(reply.model) {
        requested
    } else {
        reply.model
    }
}

/// The usage of a reply, zero where it reports none.
pub open spec fn usage_of(reply: ReplyModel) -> TokenUsage {
    match reply.usage {
        Some(usage) => TokenUsage {
            prompt_tokens: usage.prompt_tokens as i64,
            completion_tokens: usage.completion_tokens as i64,
            total_tokens: usage.total_tokens as i64,
        },
        None => TokenUsage { prompt_tokens: 0, completion_tokens: 0, total_tokens: 0 },
    }
}

impl CompletionReply {
    /// The content of the first choice, empty where there is none.
    pub fn content(&self) -> (out: String)
        ensures
            out@ == content_of(self@),
    {
        if self.choices.len() > 0 {
            assert(self@.choices[0] == text::viewed(self.choices@[0]));
            match &self.choices[0] {
                Some(content) => {
                    return content.clone();
                },
                None => {},
            }
        }
        let none: String = String::new();
        assert(none@ =~= Seq::<char>::empty());
        none
    }

    /// The content of every choice, in order; empty where a choice has none.
    pub fn contents(&self) -> (out: Vec<String>)
        ensures
            text::texts(out@) == Seq::new(
                self@.choices.len(),
                |i: int| config::or_text(self@.choices[i], Seq::empty()),
            ),
    {
        let mut out: Vec<String> = Vec::new();
        let mut i: usize = 0;
        while i < self.choices.len()
            invariant
                i <= self.choices.len(),
                out.len() == i,
                forall|k: int|
                    0 <= k < i ==> (#[trigger] out@[k])@ == config::or_text(
                        self@.choices[k],
                        Seq::empty(),
                    ),
            decreases self.choices.len() - i,
        {
            assert(self@.choices[i as int] == text::viewed(self.choices@[i as int]));
            let content: String = match &self.choices[i] {
                Some(content) => content.clone(),
                None => {
                    let none: String = String::new();
                    assert(none@ =~= Seq::<char>::empty());
                    none
                },
            };
            out.push(content);
            i = i + 1;
        }
        assert(text::texts(out@) =~= Seq::new(
            self@.choices.len(),
            |i: int| config::or_text(self@.choices[i], Seq::empty()),
        ));
        out
    }

    /// The model that answered; the requested one where the reply names none.
    pub fn resolved_model(&self, requested: &str) -> (out: String)
        ensures
            out@ == resolved_name(self@, requested@),
    {
        if text::blank(self.model.as_str()) {
            requested.to_owned()
        } else {
            self.model.clone()
        }
    }

    /// The usage of the reply, zero where it reports none.
    pub fn token_usage(&self) -> (usage: TokenUsage)
        ensures
            usage == usage_of(self@),
    {
        match self.usage {
            Some(usage) => TokenUsage {
                prompt_tokens: usage.prompt_tokens as i64,
                completion_tokens: usage.completion_tokens as i64,
                total_tokens: usage.total_tokens as i64,
            },
            None => TokenUsage { prompt_tokens: 0, completion_tokens: 0, total_tokens: 0 },
        }
    }
}

/// Usage to be recorded once an operation succeeded.
#[derive(Debug, PartialEq, Eq)]
pub struct UsageRecord {
    pub operation: &'static str,
    pub usage: TokenUsage,
    pub model: String,
}

#[verifier::ext_equal]
pub struct RecordModel {
    pub operation: Seq<char>,
    pub usage: TokenUsage,
    pub model: Seq<char>,
}

impl View for UsageRecord {
    type V = RecordModel;

    open spec fn view(&self) -> RecordModel {
        RecordModel { operation: self.operation@, usage: self.usage, model: self.model@ }
    }
}

/// The model of an optional record.
pub open spec fn record_model(record: Option<UsageRecord>) -> Option<RecordModel> {
    match record {
        Some(found) => Some(found@),
        None => None,
    }
}

// ---------------------------------------------------------------------------
// Settings
// ---------------------------------------------------------------------------

/// The models that recaps are generated with, and their prompts.
#[derive(Debug)]
pub struct RecapModels {
    pub primary: String,
    pub primary_backups: Vec<String>,
    pub condensed: String,
    pub condensed_backups: Vec<String>,
    pub check: Option<String>,
    pub check_backups: Vec<String>,
    pub force_check_failure: bool,
    pub force_condensed_primary_failure: bool,
    pub token_limit: Option<u32>,
    pub prompts: PromptConfig,
}

#[verifier::ext_equal]
pub struct ModelsModel {
    pub primary: Seq<char>,
    pub primary_backups: Seq<Seq<char>>,
    pub condensed: Seq<char>,
    pub condensed_backups: Seq<Seq<char>>,
    pub check: Option<Seq<char>>,
    pub check_backups: Seq<Seq<char>>,
    pub force_check_failure: bool,
    pub force_condensed_primary_failure: bool,
    pub token_limit: Option<u32>,
    pub prompts: PromptModel,
}

impl View for RecapModels {
    type V = ModelsModel;

    open spec fn view(&self) -> ModelsModel {
        ModelsModel {
            primary: self.primary@,
            primary_backups: text::texts(self.primary_backups@),
            condensed: self.condensed@,
            condensed_backups: text::texts(self.condensed_backups@),
            check: text::viewed(self.check),
            check_backups: text::texts(self.check_backups@),
            force_check_failure: self.force_check_failure,
            force_condensed_primary_failure: self.force_condensed_primary_failure,
            token_limit: self.token_limit,
            prompts: self.prompts@,
        }
    }
}

/// The models and prompts of a configuration.
pub open spec fn models_of(recap: RecapModel, condensed: PromptsModel) -> ModelsModel {
    ModelsModel {
        primary: recap.primary_model,
        primary_backups: recap.primary_backups,
        condensed: recap.condensed_model,
        condensed_backups: recap.condensed_backups,
        check: recap.check_model,
        check_backups: recap.check_backups,
        force_check_failure: recap.force_check_failure,
        force_condensed_primary_failure: recap.force_condensed_primary_failure,
        token_limit: config::narrowed(recap.token_limit as int),
        prompts: prompts::prompts_of(recap, condensed),
    }
}

/// A copy of a list of texts.
pub fn copied(texts: &Vec<String>) -> (out: Vec<String>)
    ensures
        text::texts(out@) == text::texts(texts@),
{
    let mut out: Vec<String> = Vec::new();
    let mut i: usize = 0;
    while i < texts.len()
        invariant
            i <= texts.len(),
            out.len() == i,
            forall|k: int| 0 <= k < i ==> (#[trigger] out@[k])@ == texts@[k]@,
        decreases texts.len() - i,
    {
        out.push(texts[i].clone());
        i = i + 1;
    }
    assert(text::texts(out@) =~= text::texts(texts@));
    out
}

impl RecapModels {
    pub fn from_config(recap: &RecapOpenAiConfig, condensed: &CondensedPromptConfig) -> (r: Self)
        ensures
            r@ == models_of(recap@, condensed@),
    {
        let r = RecapModels {
            primary: recap.primary_model.clone(),
            primary_backups: copied(&recap.primary_backups),
            condensed: recap.condensed_model.clone(),
            condensed_backups: copied(&recap.condensed_backups),
            check: match &recap.check_model {
                Some(model) => Some(model.clone()),
                None => None,
            },
            check_backups: copied(&recap.check_backups),
            force_check_failure: recap.force_check_failure,
            force_condensed_primary_failure: recap.force_condensed_primary_failure,
            token_limit: config::narrow(recap.token_limit),
            prompts: PromptConfig::from_config(recap, condensed),
        };
        assert(r@ =~= models_of(recap@, condensed@));
        r
    }
}

// ---------------------------------------------------------------------------
// Template faults as errors
// ---------------------------------------------------------------------------

pub open spec fn render_message(fault: RenderFault) -> Seq<char> {
    match fault {
        RenderFault::UnclosedAction => "prompt template contains an unclosed action"@,
        RenderFault::UnsupportedAction => "prompt template contains an unsupported action"@,
    }
}

pub fn render_error(fault: RenderFault) -> (out: String)
    ensures
        out@ == render_message(fault),
{
    match fault {
        RenderFault::UnclosedAction => "prompt template contains an unclosed action".to_owned(),
        RenderFault::UnsupportedAction =>
            "prompt template contains an unsupported action".to_owned(),
    }
}

// ---------------------------------------------------------------------------
// Single completions
// ---------------------------------------------------------------------------

/// What to ask, of the primary model alone, for shortening any text.
pub fn ask_summarize_any(models: &RecapModels, content: &str) -> (ask: Ask)
    ensures
        ask@ == (AskModel {
            model: models@.primary,
            system: prompts::ANY_SUMMARIZATION_SYSTEM_PROMPT@,
            user: "內容：\n"@ + content@,
            temperature_percent: None,
            max_tokens: None,
        }),
{
    Ask {
        model: models.primary.clone(),
        system: prompts::ANY_SUMMARIZATION_SYSTEM_PROMPT.to_owned(),
        user: prompts::render_any_summarization_user_prompt(content),
        temperature_percent: None,
        max_tokens: None,
    }
}

/// What to ask, of the primary model alone, for shortening one long message.
pub fn ask_summarize_one_chat_history(models: &RecapModels, chat_history: &str) -> (ask: Ask)
    ensures
        ask@ == (AskModel {
            model: models@.primary,
            system: prompts::ONE_CHAT_HISTORY_SUMMARIZATION_SYSTEM_PROMPT@,
            user: "消息：\n"@ + chat_history@ + "\n请你帮我总结一下。"@,
            temperature_percent: None,
            max_tokens: None,
        }),
{
    Ask {
        model: models.primary.clone(),
        system: prompts::ONE_CHAT_HISTORY_SUMMARIZATION_SYSTEM_PROMPT.to_owned(),
        user: prompts::render_one_chat_history_user_prompt(chat_history),
        temperature_percent: None,
        max_tokens: None,
    }
}

/// What single completions come to: the contents of all choices and the usage of the
/// requested model to record, or the context of the failure.
pub fn finish_single(
    models: &RecapModels,
    operation: &'static str,
    failure_context: &str,
    outcome: &Outcome,
) -> (r: Result<(Vec<String>, UsageRecord), String>)
    ensures
        match r {
            Ok((contents, record)) => match outcome@ {
                OutcomeModel::Reply(reply) => text::texts(contents@) == Seq::new(
                    reply.choices.len(),
                    |i: int| config::or_text(reply.choices[i], Seq::empty()),
                ) && record@ == (RecordModel {
                    operation: operation@,
                    usage: usage_of(reply),
                    model: models@.primary,
                }),
                OutcomeModel::Failed(_) => false,
            },
            Err(message) => match outcome@ {
                OutcomeModel::Reply(_) => false,
                OutcomeModel::Failed(_) => message@ == failure_context@,
            },
        },
{
    match outcome {
        Outcome::Reply(reply) => Ok(
            (
                reply.contents(),
                UsageRecord {
                    operation,
                    usage: reply.token_usage(),
                    model: models.primary.clone(),
                },
            ),
        ),
        Outcome::Failed(_) => Err(failure_context.to_owned()),
    }
}

} // verus!
