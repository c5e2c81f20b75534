//! Delivering a recap: rich parts first, plain text from the first part that Telegram
//! cannot show.

use vstd::prelude::*;

use crate::numeral::{self, format_u64};
use crate::services::rich_recap::{self, rich_markdown_to_plain_text};
use crate::services::rich_split::{self, split_plain_text};
use crate::services::telegram_rich_message::{
    self, RichMessageReplyParameters, SendErrorModel, TelegramRichMessageError,
};
use crate::text;

verus! {

/// Telegram's limit for a plain message, in UTF-16 units.
pub const PLAIN_MESSAGE_UTF16_UNIT_LIMIT: usize = 4_096;

// ---------------------------------------------------------------------------
// Errors of Telegram
// ---------------------------------------------------------------------------

pub open spec fn refusal(error: SendErrorModel) -> Option<Seq<char>> {
    match error {
        SendErrorModel::Api { code, description, .. } => if code == 400 {
            Some(text::ascii_lower(description))
        } else {
            None
        },
        _ => None,
    }
}

/// Whether a message was refused because it is too long.
pub open spec fn too_long(error: SendErrorModel) -> bool {
    match refusal(error) {
        Some(said) => text::occurs(said, "message is too long"@),
        None => false,
    }
}

pub const PAYLOAD_SIGNATURES: [&'static str; 4] = [
    "reply markup",
    "reply_markup",
    "reply parameters",
    "reply_parameters",
];

pub const MARKUP_SIGNATURES: [&'static str; 8] = [
    "can't parse entities",
    "cannot parse entities",
    "can't find end of the entity",
    "unsupported start tag",
    "can't parse markdown",
    "cannot parse markdown",
    "failed to parse markdown",
    "invalid markdown",
];

pub const RICH_CONTEXT_SIGNATURES: [&'static str; 3] = [
    "rich message",
    "rich_message",
    "inputrichmessage",
];

pub const RICH_SIGNATURES: [&'static str; 9] = [
    "can't parse rich message",
    "cannot parse rich message",
    "failed to parse rich message",
    "invalid rich message",
    "rich message is invalid",
    "rich message format",
    "rich message block",
    "rich message nesting",
    "rich message is too long",
];

/// Whether one of the signatures stands in `said`.
pub open spec fn any_signature(signatures: Seq<&'static str>, said: Seq<char>) -> bool {
    exists|i: int| 0 <= i < signatures.len() && text::occurs(said, #[trigger] signatures[i]@)
}

/// Whether a message was refused for its formatting: not for what it replies to or for
/// its buttons, but for its Markdown.
pub open spec fn badly_formatted(error: SendErrorModel) -> bool {
    match refusal(error) {
        Some(said) => !any_signature(PAYLOAD_SIGNATURES@, said) && (any_signature(
            MARKUP_SIGNATURES@,
            said,
        ) || (any_signature(RICH_CONTEXT_SIGNATURES@, said) && any_signature(
            RICH_SIGNATURES@,
            said,
        ))),
        None => false,
    }
}

fn refusal_of(error: &TelegramRichMessageError) -> (r: Option<String>)
    ensures
        text::viewed(r) == refusal(error@),
{
    match error {
        TelegramRichMessageError::Api { code, description, .. } => if *code == 400 {
            Some(text::to_ascii_lower(description.as_str()))
        } else {
            None
        },
        _ => None,
    }
}

fn has_signature<const N: usize>(signatures: &[&'static str; N], said: &str) -> (r: bool)
    ensures
        r == any_signature(signatures@, said@),
{
    let mut i: usize = 0;
    while i < N
        invariant
            i <= N,
            signatures@.len() == N,
            forall|k: int| 0 <= k < i ==> !text::occurs(said@, #[trigger] signatures@[k]@),
        decreases N - i,
    {
        let signature: &'static str = signatures[i];
        assert(signatures@[i as int]@ == signature@);
        if text::contains(said, signature) {
            return true;
        }
        i = i + 1;
    }
    false
}

pub fn is_message_too_long_error(error: &TelegramRichMessageError) -> (r: bool)
    ensures
        r == too_long(error@),
{
    match refusal_of(error) {
        Some(said) => text::contains(said.as_str(), "message is too long"),
        None => false,
    }
}

pub fn is_rich_message_formatting_error(error: &TelegramRichMessageError) -> (r: bool)
    ensures
        r == badly_formatted(error@),
{
    match refusal_of(error) {
        Some(said) => !has_signature(&PAYLOAD_SIGNATURES, said.as_str()) && (has_signature(
            &MARKUP_SIGNATURES,
            said.as_str(),
        ) || (has_signature(&RICH_CONTEXT_SIGNATURES, said.as_str()) && has_signature(
            &RICH_SIGNATURES,
            said.as_str(),
        ))),
        None => false,
    }
}

/// Why a delivery ended early.
#[derive(Debug, PartialEq, Eq)]
pub enum RecapDeliveryError {
    RichPart { part_number: usize, source: TelegramRichMessageError },
    NoPlainFallback { part_number: usize, source: Option<TelegramRichMessageError> },
    PlainFallbackPart {
        part_number: usize,
        plain_part_number: usize,
        source: TelegramRichMessageError,
    },
}

#[verifier::ext_equal]
pub enum DeliveryErrorModel {
    RichPart { part_number: int, source: SendErrorModel },
    NoPlainFallback { part_number: int, source: Option<SendErrorModel> },
    PlainFallbackPart { part_number: int, plain_part_number: int, source: SendErrorModel },
}

impl View for RecapDeliveryError {
    type V = DeliveryErrorModel;

    open spec fn view(&self) -> DeliveryErrorModel {
        match *self {
            RecapDeliveryError::RichPart { part_number, source } => DeliveryErrorModel::RichPart {
                part_number: part_number as int,
                source: source@,
            },
            RecapDeliveryError::NoPlainFallback { part_number, source } =>
                DeliveryErrorModel::NoPlainFallback {
                    part_number: part_number as int,
                    source: telegram_rich_message::error_model(source),
                },
            RecapDeliveryError::PlainFallbackPart { part_number, plain_part_number, source } =>
                DeliveryErrorModel::PlainFallbackPart {
                    part_number: part_number as int,
                    plain_part_number: plain_part_number as int,
                    source: source@,
                },
        }
    }
}

pub open spec fn delivery_message(error: DeliveryErrorModel) -> Seq<char> {
    match error {
        DeliveryErrorModel::RichPart { part_number, source } => "send rich recap part "@
            + numeral::decimal(part_number) + ": "@ + telegram_rich_message::send_error_message(
            source,
        ),
        DeliveryErrorModel::NoPlainFallback { part_number, source } => "rich recap part "@
            + numeral::decimal(part_number) + " has no plain-text fallback"@ + match source {
            Some(cause) => ": "@ + telegram_rich_message::send_error_message(cause),
            None => Seq::empty(),
        },
        DeliveryErrorModel::PlainFallbackPart { part_number, plain_part_number, source } =>
            "send plain recap fallback part "@ + numeral::decimal(part_number) + "."@
                + numeral::decimal(plain_part_number) + ": "@
                + telegram_rich_message::send_error_message(source),
    }
}

impl RecapDeliveryError {
    pub fn message(&self) -> (out: String)
        ensures
            out@ == delivery_message(self@),
    {
        match self {
            RecapDeliveryError::RichPart { part_number, source } => {
                let number: String = format_u64(*part_number as u64);
                let cause: String = source.message();
                let mut out: String = text::joined3("send rich recap part ", number.as_str(), ": ");
                out.append(cause.as_str());
                assert(out@ =~= delivery_message(self@));
                out
            },
            RecapDeliveryError::NoPlainFallback { part_number, source } => {
                let number: String = format_u64(*part_number as u64);
                let mut out: String = text::joined3(
                    "rich recap part ",
                    number.as_str(),
                    " has no plain-text fallback",
                );
                match source {
                    Some(cause) => {
                        out.append(": ");
                        out.append(cause.message().as_str());
                    },
                    None => {},
                }
                assert(out@ =~= delivery_message(self@));
                out
            },
            RecapDeliveryError::PlainFallbackPart { part_number, plain_part_number, source } => {
                let number: String = format_u64(*part_number as u64);
                let plain: String = format_u64(*plain_part_number as u64);
                let mut out: String = text::joined3(
                    "send plain recap fallback part ",
                    number.as_str(),
                    ".",
                );
                out.append(plain.as_str());
                out.append(": ");
                out.append(source.message().as_str());
                assert(out@ =~= delivery_message(self@));
                out
            },
        }
    }
}

// ---------------------------------------------------------------------------
// The plan
// ---------------------------------------------------------------------------

/// One part of a recap: its Markdown, and the plain text that stands in for it.
#[derive(Debug, PartialEq, Eq)]
pub struct DeliveryPart {
    pub markdown: String,
    pub plain: String,
}

#[verifier::ext_equal]
pub struct PartModel {
    pub markdown: Seq<char>,
    pub plain: Seq<char>,
}

pub open spec fn parts_model(parts: Seq<DeliveryPart>) -> Seq<PartModel> {
    Seq::new(
        parts.len(),
        |i: int| PartModel { markdown: parts[i].markdown@, plain: parts[i].plain@ },
    )
}

/// A part with the plain text that stands in for it.
pub open spec fn part_of(markdown: Seq<char>) -> PartModel {
    PartModel {
        markdown,
        plain: text::trimmed(
            rich_recap::unescaped(rich_recap::plain_spans(rich_recap::plain_blocks(markdown))),
        ),
    }
}

/// The parts of a recap with their plain texts.
pub fn delivery_parts(parts: &Vec<String>) -> (out: Vec<DeliveryPart>)
    ensures
        parts_model(out@) == Seq::new(parts@.len(), |i: int| part_of(parts@[i]@)),
{
    let ghost wanted = Seq::new(parts@.len(), |i: int| part_of(parts@[i]@));
    let mut out: Vec<DeliveryPart> = Vec::new();
    let mut i: usize = 0;
    while i < parts.len()
        invariant
            i <= parts.len(),
            out.len() == i,
            wanted == Seq::new(parts@.len(), |i: int| part_of(parts@[i]@)),
            forall|k: int| 0 <= k < i ==> parts_model(out@)[k] == #[trigger] wanted[k],
        decreases parts.len() - i,
    {
        let ghost before = parts_model(out@);
        let plain: String = rich_markdown_to_plain_text(parts[i].as_str());
        out.push(DeliveryPart { markdown: parts[i].clone(), plain });
        assert(parts_model(out@) =~= before.push(part_of(parts@[i as int]@)));
        i = i + 1;
    }
    assert(parts_model(out@) =~= wanted);
    out
}

/// Where and how a recap is delivered.
#[derive(Debug, Clone, Copy, PartialEq, Eq, Structural)]
pub struct DeliverySettings {
    pub chat_id: i64,
    pub reply_to_message_id: i32,
    pub disable_notification: bool,
    pub allow_sending_without_reply: bool,
}

/// A plain text that is still to be sent.
#[derive(Debug, PartialEq, Eq)]
pub struct PendingPlainPart {
    pub text: String,
    pub limit: usize,
    pub with_markup: bool,
    pub part_number: usize,
    pub plain_part_number: usize,
}

#[verifier::ext_equal]
pub struct PendingModel {
    pub text: Seq<char>,
    pub limit: int,
    pub with_markup: bool,
    pub part_number: int,
    pub plain_part_number: int,
}

impl View for PendingPlainPart {
    type V = PendingModel;

    open spec fn view(&self) -> PendingModel {
        PendingModel {
            text: self.text@,
            limit: self.limit as int,
            with_markup: self.with_markup,
            part_number: self.part_number as int,
            plain_part_number: self.plain_part_number as int,
        }
    }
}

pub open spec fn pending_model(pending: Seq<PendingPlainPart>) -> Seq<PendingModel> {
    Seq::new(pending.len(), |i: int| pending[i]@)
}

/// How far a delivery got. What is pending is sent from the end.
#[derive(Debug, PartialEq, Eq)]
pub struct DeliveryState {
    pub next_part: usize,
    pub plain_mode: bool,
    pub pending: Vec<PendingPlainPart>,
    /// The messages that were sent.
    pub sent: Vec<i32>,
    pub error: Option<RecapDeliveryError>,
}

#[verifier::ext_equal]
pub struct StateModel {
    pub next_part: int,
    pub plain_mode: bool,
    pub pending: Seq<PendingModel>,
    pub sent: Seq<i32>,
    pub error: Option<DeliveryErrorModel>,
}

pub open spec fn optional_error(error: Option<RecapDeliveryError>) -> Option<DeliveryErrorModel> {
    match error {
        Some(found) => Some(found@),
        None => None,
    }
}

impl View for DeliveryState {
    type V = StateModel;

    open spec fn view(&self) -> StateModel {
        StateModel {
            next_part: self.next_part as int,
            plain_mode: self.plain_mode,
            pending: pending_model(self.pending@),
            sent: self.sent@,
            error: optional_error(self.error),
        }
    }
}

/// Nothing is sent yet.
pub open spec fn undelivered() -> StateModel {
    StateModel {
        next_part: 0,
        plain_mode: false,
        pending: Seq::empty(),
        sent: Seq::empty(),
        error: None,
    }
}

/// What to do next.
#[derive(Debug, PartialEq, Eq)]
pub enum DeliveryAction {
    SendRich {
        markdown: String,
        reply: Option<RichMessageReplyParameters>,
        with_markup: bool,
    },
    SendPlain { text: String, reply_to_message_id: i32, with_markup: bool },
    /// Everything was sent.
    Finished,
    /// The delivery ended early, with the error of the state.
    Failed,
}

#[verifier::ext_equal]
pub enum ActionModel {
    SendRich {
        markdown: Seq<char>,
        reply: Option<RichMessageReplyParameters>,
        with_markup: bool,
    },
    SendPlain { text: Seq<char>, reply_to_message_id: i32, with_markup: bool },
    Finished,
    Failed,
}

impl View for DeliveryAction {
    type V = ActionModel;

    open spec fn view(&self) -> ActionModel {
        match *self {
            DeliveryAction::SendRich { markdown, reply, with_markup } => ActionModel::SendRich {
                markdown: markdown@,
                reply,
                with_markup,
            },
            DeliveryAction::SendPlain { text, reply_to_message_id, with_markup } =>
                ActionModel::SendPlain { text: text@, reply_to_message_id, with_markup },
            DeliveryAction::Finished => ActionModel::Finished,
            DeliveryAction::Failed => ActionModel::Failed,
        }
    }
}

/// What a message replies to: the first that was sent, else what the recap replies to.
pub open spec fn replies_to(sent: Seq<i32>, settings: DeliverySettings) -> i32 {
    if sent.len() > 0 {
        sent[0]
    } else {
        settings.reply_to_message_id
    }
}

/// What to do in a state.
pub open spec fn next_action(
    settings: DeliverySettings,
    parts: Seq<PartModel>,
    state: StateModel,
) -> ActionModel {
    let reply = replies_to(state.sent, settings);
    if state.error is Some {
        ActionModel::Failed
    } else if state.pending.len() > 0 {
        ActionModel::SendPlain {
            text: state.pending.last().text,
            reply_to_message_id: reply,
            with_markup: state.pending.last().with_markup,
        }
    } else if state.next_part < parts.len() {
        ActionModel::SendRich {
            markdown: parts[state.next_part].markdown,
            reply: if reply == 0 {
                None
            } else {
                Some(
                    RichMessageReplyParameters {
                        message_id: reply,
                        chat_id: 0,
                        allow_sending_without_reply: settings.allow_sending_without_reply,
                    },
                )
            },
            with_markup: state.next_part == 0,
        }
    } else {
        ActionModel::Finished
    }
}

/// The pieces of a text to be sent: the first on top, the markup with it alone.
pub open spec fn stacked(
    pieces: Seq<Seq<char>>,
    limit: int,
    with_markup: bool,
    part_number: int,
    plain_part_number: Option<int>,
) -> Seq<PendingModel> {
    Seq::new(
        pieces.len(),
        |i: int|
            {
                let k = pieces.len() - 1 - i;
                PendingModel {
                    text: pieces[k],
                    limit,
                    with_markup: with_markup && k == 0,
                    part_number,
                    plain_part_number: match plain_part_number {
                        Some(number) => number,
                        None => k + 1,
                    },
                }
            },
    )
}

/// The pieces of a plain text.
pub open spec fn plain_pieces(plain: Seq<char>, limit: int) -> Seq<Seq<char>> {
    if limit == 0 {
        Seq::empty()
    } else {
        rich_split::parts_of(text::trimmed(plain), limit)
    }
}

/// Go over to the plain text of the next part.
pub open spec fn in_plain_text(
    parts: Seq<PartModel>,
    state: StateModel,
    source: Option<SendErrorModel>,
) -> StateModel {
    let number = state.next_part + 1;
    let pieces = plain_pieces(
        parts[state.next_part].plain,
        PLAIN_MESSAGE_UTF16_UNIT_LIMIT as int,
    );
    if pieces.len() == 0 {
        StateModel {
            plain_mode: true,
            error: Some(DeliveryErrorModel::NoPlainFallback { part_number: number, source }),
            ..state
        }
    } else {
        StateModel {
            next_part: number,
            plain_mode: true,
            pending: stacked(
                pieces,
                PLAIN_MESSAGE_UTF16_UNIT_LIMIT as int,
                state.next_part == 0,
                number,
                None,
            ),
            ..state
        }
    }
}

/// Once a plain part is done, the next part follows in plain text.
pub open spec fn moved_on(parts: Seq<PartModel>, state: StateModel) -> StateModel {
    if state.plain_mode && state.pending.len() == 0 && state.next_part < parts.len() {
        in_plain_text(parts, state, None)
    } else {
        state
    }
}

/// The model of what a request came to.
pub open spec fn sent_model(outcome: Result<i32, TelegramRichMessageError>) -> Result<
    i32,
    SendErrorModel,
> {
    match outcome {
        Ok(message) => Ok(message),
        Err(error) => Err(error@),
    }
}

/// The state after what was sent last came to `outcome`.
pub open spec fn after_send(
    parts: Seq<PartModel>,
    state: StateModel,
    outcome: Result<i32, SendErrorModel>,
) -> StateModel {
    if state.pending.len() > 0 {
        let last = state.pending.last();
        let rest = state.pending.drop_last();
        match outcome {
            Ok(message) => moved_on(
                parts,
                StateModel { pending: rest, sent: state.sent.push(message), ..state },
            ),
            Err(error) => {
                let halved = last.limit / 2;
                let pieces = plain_pieces(last.text, halved);
                if !too_long(error) || halved < 1 || pieces.len() < 2 {
                    StateModel {
                        error: Some(
                            DeliveryErrorModel::PlainFallbackPart {
                                part_number: last.part_number,
                                plain_part_number: last.plain_part_number,
                                source: error,
                            },
                        ),
                        ..state
                    }
                } else {
                    StateModel {
                        pending: rest + stacked(
                            pieces,
                            halved,
                            last.with_markup,
                            last.part_number,
                            Some(last.plain_part_number),
                        ),
                        ..state
                    }
                }
            },
        }
    } else {
        match outcome {
            Ok(message) => StateModel {
                next_part: state.next_part + 1,
                sent: state.sent.push(message),
                ..state
            },
            Err(error) => if badly_formatted(error) || too_long(error) {
                in_plain_text(parts, state, Some(error))
            } else {
                StateModel {
                    error: Some(
                        DeliveryErrorModel::RichPart {
                            part_number: state.next_part + 1,
                            source: error,
                        },
                    ),
                    ..state
                }
            },
        }
    }
}

fn stack(
    pending: &mut Vec<PendingPlainPart>,
    pieces: Vec<String>,
    limit: usize,
    with_markup: bool,
    part_number: usize,
    plain_part_number: Option<usize>,
)
    ensures
        pending_model(final(pending)@) == pending_model(old(pending)@) + stacked(
            text::texts(pieces@),
            limit as int,
            with_markup,
            part_number as int,
            match plain_part_number {
                Some(number) => Some(number as int),
                None => None,
            },
        ),
{
    let ghost before = pending_model(pending@);
    let ghost wanted = stacked(
        text::texts(pieces@),
        limit as int,
        with_markup,
        part_number as int,
        match plain_part_number {
            Some(number) => Some(number as int),
            None => None,
        },
    );
    let count: usize = pieces.len();
    let mut left: usize = count;
    assert(before + wanted.take(0) =~= before);
    while left > 0
        invariant
            left <= count,
            count == pieces.len(),
            wanted == stacked(
                text::texts(pieces@),
                limit as int,
                with_markup,
                part_number as int,
                match plain_part_number {
                    Some(number) => Some(number as int),
                    None => None,
                },
            ),
            pending_model(pending@) == before + wanted.take(count - left),
        decreases left,
    {
        let ghost so_far = pending_model(pending@);
        let k: usize = left - 1;
        let number: usize = match plain_part_number {
            Some(number) => number,
            None => k + 1,
        };
        let entry = PendingPlainPart {
            text: pieces[k].clone(),
            limit,
            with_markup: with_markup && k == 0,
            part_number,
            plain_part_number: number,
        };
        assert(entry@ =~= wanted[count - left]) by {
            assert(text::texts(pieces@)[k as int] == pieces@[k as int]@);
        }
        pending.push(entry);
        left = left - 1;
        assert(pending_model(pending@) =~= so_far.push(entry@));
        assert(wanted.take(count - left) =~= wanted.take(count - left - 1).push(
            wanted[count - left - 1],
        ));
        assert(pending_model(pending@) =~= before + wanted.take(count - left));
    }
    assert(wanted.take(count as int) =~= wanted);
}

impl DeliveryState {
    /// Nothing is sent yet.
    pub fn new() -> (r: Self)
        ensures
            r@ == undelivered(),
    {
        let r = DeliveryState {
            next_part: 0,
            plain_mode: false,
            pending: Vec::new(),
            sent: Vec::new(),
            error: None,
        };
        assert(r@ =~= undelivered());
        r
    }

    fn reply_id(&self, settings: DeliverySettings) -> (id: i32)
        ensures
            id == replies_to(self.sent@, settings),
    {
        if self.sent.len() > 0 {
            self.sent[0]
        } else {
            settings.reply_to_message_id
        }
    }

    /// What to do next.
    pub fn action(&self, settings: DeliverySettings, parts: &Vec<DeliveryPart>) -> (action:
        DeliveryAction)
        ensures
            action@ == next_action(settings, parts_model(parts@), self@),
    {
        if self.error.is_some() {
            return DeliveryAction::Failed;
        }
        let reply: i32 = self.reply_id(settings);
        if self.pending.len() > 0 {
            let last: &PendingPlainPart = &self.pending[self.pending.len() - 1];
            assert(self@.pending.last() == last@);
            return DeliveryAction::SendPlain {
                text: last.text.clone(),
                reply_to_message_id: reply,
                with_markup: last.with_markup,
            };
        }
        if self.next_part < parts.len() {
            let part: &DeliveryPart = &parts[self.next_part];
            assert(parts_model(parts@)[self.next_part as int].markdown == part.markdown@);
            let target: Option<RichMessageReplyParameters> = if reply == 0 {
                None
            } else {
                Some(
                    RichMessageReplyParameters {
                        message_id: reply,
                        chat_id: 0,
                        allow_sending_without_reply: settings.allow_sending_without_reply,
                    },
                )
            };
            return DeliveryAction::SendRich {
                markdown: part.markdown.clone(),
                reply: target,
                with_markup: self.next_part == 0,
            };
        }
        DeliveryAction::Finished
    }

    fn go_plain(&mut self, parts: &Vec<DeliveryPart>, source: Option<TelegramRichMessageError>)
        requires
            old(self).next_part < parts.len(),
            old(self).pending@.len() == 0,
        ensures
            final(self)@ == in_plain_text(
                parts_model(parts@),
                old(self)@,
                telegram_rich_message::error_model(source),
            ),
    {
        let ghost all = parts_model(parts@);
        let ghost before = self@;
        assert(all[self.next_part as int].plain == parts@[self.next_part as int].plain@);
        let number: usize = self.next_part + 1;
        let first: bool = self.next_part == 0;
        let pieces: Vec<String> = split_plain_text(
            parts[self.next_part].plain.as_str(),
            PLAIN_MESSAGE_UTF16_UNIT_LIMIT,
        );
        assert(text::texts(pieces@).len() == pieces@.len());
        self.plain_mode = true;
        if pieces.len() == 0 {
            self.error = Some(RecapDeliveryError::NoPlainFallback { part_number: number, source });
            assert(self@ =~= in_plain_text(
                all,
                before,
                telegram_rich_message::error_model(source),
            ));
            return ;
        }
        let mut pending: Vec<PendingPlainPart> = Vec::new();
        assert(pending_model(pending@) =~= Seq::<PendingModel>::empty());
        stack(&mut pending, pieces, PLAIN_MESSAGE_UTF16_UNIT_LIMIT, first, number, None);
        self.pending = pending;
        self.next_part = number;
        assert(self@ =~= in_plain_text(all, before, telegram_rich_message::error_model(source)));
    }

    /// Take note of what the last request came to: the message that was sent, or why it
    /// was not.
    pub fn record(
        &mut self,
        parts: &Vec<DeliveryPart>,
        outcome: Result<i32, TelegramRichMessageError>,
    )
        requires
            old(self).error is None,
            old(self).pending@.len() > 0 || old(self).next_part < parts.len(),
        ensures
            final(self)@ == after_send(parts_model(parts@), old(self)@, sent_model(outcome)),
    {
        let ghost all = parts_model(parts@);
        let ghost before = self@;
        match self.pending.pop() {
            Some(last) => {
                let ghost rest = pending_model(self.pending@);
                assert(rest =~= before.pending.drop_last());
                assert(before.pending.last() == last@);
                match outcome {
                    Ok(message) => {
                        self.sent.push(message);
                        let ghost middle = self@;
                        assert(middle =~= (StateModel {
                            pending: rest,
                            sent: before.sent.push(message),
                            ..before
                        }));
                        if self.plain_mode && self.pending.len() == 0 && self.next_part
                            < parts.len() {
                            self.go_plain(parts, None);
                        }
                    },
                    Err(error) => {
                        let halved: usize = last.limit / 2;
                        let pieces: Vec<String> = split_plain_text(last.text.as_str(), halved);
                        assert(text::texts(pieces@).len() == pieces@.len());
                        assert(text::texts(pieces@) =~= plain_pieces(last@.text, last@.limit / 2));
                        if !is_message_too_long_error(&error) || halved < 1 || pieces.len() < 2 {
                            let part_number: usize = last.part_number;
                            let plain_part_number: usize = last.plain_part_number;
                            self.pending.push(last);
                            assert(pending_model(self.pending@) =~= before.pending);
                            self.error = Some(
                                RecapDeliveryError::PlainFallbackPart {
                                    part_number,
                                    plain_part_number,
                                    source: error,
                                },
                            );
                            assert(self@ =~= after_send(all, before, sent_model(outcome)));
                            return ;
                        }
                        stack(
                            &mut self.pending,
                            pieces,
                            halved,
                            last.with_markup,
                            last.part_number,
                            Some(last.plain_part_number),
                        );
                        assert(self@ =~= after_send(all, before, sent_model(outcome)));
                    },
                }
            },
            None => {
                assert(before.pending.len() == 0);
                match outcome {
                    Ok(message) => {
                        self.sent.push(message);
                        self.next_part = self.next_part + 1;
                        assert(self@ =~= after_send(all, before, sent_model(outcome)));
                    },
                    Err(error) => {
                        if is_rich_message_formatting_error(&error) || is_message_too_long_error(
                            &error,
                        ) {
                            self.go_plain(parts, Some(error));
                        } else {
                            let part_number: usize = self.next_part + 1;
                            self.error = Some(
                                RecapDeliveryError::RichPart { part_number, source: error },
                            );
                            assert(self@ =~= after_send(all, before, sent_model(outcome)));
                        }
                    },
                }
            },
        }
    }
}

// ---------------------------------------------------------------------------
// Laws
// ---------------------------------------------------------------------------

/// What holds of every state of a delivery: rich parts alone are pending outside plain
/// text, and the buttons are still to be sent only while nothing was sent, with what
/// comes next.
pub open spec fn sound(parts: Seq<PartModel>, state: StateModel) -> bool {
    &&& 0 <= state.next_part <= parts.len()
    &&& state.pending.len() > 0 ==> state.plain_mode
    &&& state.plain_mode && state.error is None && state.pending.len() == 0 ==> state.next_part
        == parts.len()
    &&& state.next_part > 0 ==> state.sent.len() > 0 || state.pending.len() > 0
    &&& state.next_part == 0 ==> state.sent.len() == 0 && state.pending.len() == 0
    &&& forall|i: int|
        0 <= i < state.pending.len() && (#[trigger] state.pending[i]).with_markup
            ==> state.sent.len() == 0 && i == state.pending.len() - 1
}

/// A delivery starts sound.
pub proof fn lemma_starts_sound(parts: Seq<PartModel>)
    ensures
        sound(parts, undelivered()),
{
}

proof fn lemma_in_plain_text_sound(
    parts: Seq<PartModel>,
    state: StateModel,
    source: Option<SendErrorModel>,
)
    requires
        0 <= state.next_part < parts.len(),
        state.pending.len() == 0,
        state.next_part > 0 ==> state.sent.len() > 0,
        state.next_part == 0 ==> state.sent.len() == 0,
    ensures
        sound(parts, in_plain_text(parts, state, source)),
{
}

/// Every request keeps a delivery sound. In a sound delivery the buttons go out with at
/// most one message that arrives, and once it went over to plain text it stays there.
pub proof fn lemma_delivery_stays_sound(
    settings: DeliverySettings,
    parts: Seq<PartModel>,
    state: StateModel,
    outcome: Result<i32, SendErrorModel>,
)
    requires
        sound(parts, state),
        next_action(settings, parts, state) is SendRich || next_action(settings, parts, state)
            is SendPlain,
    ensures
        sound(parts, after_send(parts, state, outcome)),
        state.plain_mode ==> after_send(parts, state, outcome).plain_mode,
        state.plain_mode ==> next_action(settings, parts, state) is SendPlain,
        match next_action(settings, parts, state) {
            ActionModel::SendRich { with_markup, .. } => with_markup ==> state.sent.len() == 0,
            ActionModel::SendPlain { with_markup, .. } => with_markup ==> state.sent.len() == 0,
            _ => true,
        },
{
    if state.pending.len() > 0 {
        let rest = state.pending.drop_last();
        match outcome {
            Ok(message) => {
                let middle = StateModel {
                    pending: rest,
                    sent: state.sent.push(message),
                    ..state
                };
                assert forall|i: int| 0 <= i < middle.pending.len() implies !(
                #[trigger] middle.pending[i]).with_markup by {
                    assert(middle.pending[i] == state.pending[i]);
                }
                if middle.plain_mode && middle.pending.len() == 0 && middle.next_part
                    < parts.len() {
                    lemma_in_plain_text_sound(parts, middle, None);
                }
            },
            Err(error) => {
                let after = after_send(parts, state, outcome);
                assert forall|i: int|
                    0 <= i < after.pending.len() && (
                    #[trigger] after.pending[i]).with_markup implies after.sent.len() == 0 && i
                    == after.pending.len() - 1 by {
                    if i < rest.len() {
                        assert(after.pending[i] == state.pending[i]);
                    } else {
                        assert(state.pending.last() == state.pending[state.pending.len() - 1]);
                    }
                }
            },
        }
    } else {
        match outcome {
            Ok(_) => {},
            Err(error) => {
                if badly_formatted(error) || too_long(error) {
                    lemma_in_plain_text_sound(parts, state, Some(error));
                }
            },
        }
    }
}

} // verus!
