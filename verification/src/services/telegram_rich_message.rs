//! Rich messages as Telegram takes them: the form, the address, and the reply.

use vstd::prelude::*;

use crate::address;
use crate::config::TelegramConfig;
use crate::numeral::{self, format_i32, format_i64};
use crate::redis::keys;
use crate::text;

verus! {

/// What a message replies to.
#[derive(Debug, Clone, Copy, PartialEq, Eq, Structural)]
pub struct RichMessageReplyParameters {
    pub message_id: i32,
    pub chat_id: i64,
    pub allow_sending_without_reply: bool,
}

impl Default for RichMessageReplyParameters {
    fn default() -> (r: Self)
        ensures
            r.message_id == 0,
            r.chat_id == 0,
            !r.allow_sending_without_reply,
    {
        RichMessageReplyParameters { message_id: 0, chat_id: 0, allow_sending_without_reply: false }
    }
}

/// What a refusal may carry.
#[derive(Debug, Clone, Copy, PartialEq, Eq, Structural)]
pub struct TelegramResponseParameters {
    pub migrate_to_chat_id: i64,
    pub retry_after: i64,
}

impl Default for TelegramResponseParameters {
    fn default() -> (r: Self)
        ensures
            r == (TelegramResponseParameters { migrate_to_chat_id: 0, retry_after: 0 }),
    {
        TelegramResponseParameters { migrate_to_chat_id: 0, retry_after: 0 }
    }
}

/// Why a message was not sent.
#[derive(Debug, PartialEq, Eq)]
pub enum TelegramRichMessageError {
    Api { code: i32, description: String, parameters: TelegramResponseParameters },
    RequestEncoding,
    Transport,
    InvalidResponse,
}

#[verifier::ext_equal]
pub enum SendErrorModel {
    Api { code: i32, description: Seq<char>, parameters: TelegramResponseParameters },
    RequestEncoding,
    Transport,
    InvalidResponse,
}

impl View for TelegramRichMessageError {
    type V = SendErrorModel;

    open spec fn view(&self) -> SendErrorModel {
        match *self {
            TelegramRichMessageError::Api { code, description, parameters } =>
                SendErrorModel::Api { code, description: description@, parameters },
            TelegramRichMessageError::RequestEncoding => SendErrorModel::RequestEncoding,
            TelegramRichMessageError::Transport => SendErrorModel::Transport,
            TelegramRichMessageError::InvalidResponse => SendErrorModel::InvalidResponse,
        }
    }
}

impl Clone for TelegramRichMessageError {
    fn clone(&self) -> (r: Self)
        ensures
            r@ == self@,
    {
        match self {
            TelegramRichMessageError::Api { code, description, parameters } =>
                TelegramRichMessageError::Api {
                    code: *code,
                    description: description.clone(),
                    parameters: *parameters,
                },
            TelegramRichMessageError::RequestEncoding => TelegramRichMessageError::RequestEncoding,
            TelegramRichMessageError::Transport => TelegramRichMessageError::Transport,
            TelegramRichMessageError::InvalidResponse => TelegramRichMessageError::InvalidResponse,
        }
    }
}

pub open spec fn send_error_message(error: SendErrorModel) -> Seq<char> {
    match error {
        SendErrorModel::Api { code, description, .. } => "Telegram API error "@ + numeral::decimal(
            code as int,
        ) + ": "@ + description,
        SendErrorModel::RequestEncoding => "Telegram Rich Message request is invalid"@,
        SendErrorModel::Transport => "Telegram Rich Message request failed"@,
        SendErrorModel::InvalidResponse => "Telegram Rich Message response is invalid"@,
    }
}

impl TelegramRichMessageError {
    pub fn message(&self) -> (out: String)
        ensures
            out@ == send_error_message(self@),
    {
        match self {
            TelegramRichMessageError::Api { code, description, .. } => {
                let number: String = format_i32(*code);
                let front: String = text::joined3("Telegram API error ", number.as_str(), ": ");
                text::joined2(front.as_str(), description.as_str())
            },
            TelegramRichMessageError::RequestEncoding =>
                "Telegram Rich Message request is invalid".to_owned(),
            TelegramRichMessageError::Transport => "Telegram Rich Message request failed".to_owned(),
            TelegramRichMessageError::InvalidResponse =>
                "Telegram Rich Message response is invalid".to_owned(),
        }
    }
}

// ---------------------------------------------------------------------------
// The form
// ---------------------------------------------------------------------------

/// A character within a JSON string: quotes, backslashes and control characters are
/// escaped.
pub open spec fn json_char(c: char) -> Seq<char> {
    if c == '"' {
        "\\\""@
    } else if c == '\\' {
        "\\\\"@
    } else if c == '\u{8}' {
        "\\b"@
    } else if c == '\u{c}' {
        "\\f"@
    } else if c == '\n' {
        "\\n"@
    } else if c == '\r' {
        "\\r"@
    } else if c == '\t' {
        "\\t"@
    } else if (c as u32) < 0x20 {
        "\\u00"@ + seq![keys::hex_digit(c as int / 16), keys::hex_digit(c as int % 16)]
    } else {
        seq![c]
    }
}

/// The characters of a JSON string from `i` on.
pub open spec fn json_chars(s: Seq<char>, i: int) -> Seq<char>
    decreases s.len() - i,
{
    if i < 0 || i >= s.len() {
        Seq::empty()
    } else {
        json_char(s[i]) + json_chars(s, i + 1)
    }
}

/// The JSON string of a text.
pub open spec fn json_string(s: Seq<char>) -> Seq<char> {
    "\""@ + json_chars(s, 0) + "\""@
}

/// `serde_json::to_string` on a text: the JSON string of the text. Writing it to memory
/// does not fail.
#[verifier::external_body]
pub(crate) fn quote_json(text: &str) -> (out: String)
    ensures
        out@ == json_string(text@),
{
    match serde_json::to_string(text) {
        Ok(quoted) => quoted,
        Err(_) => String::new(),
    }
}

/// What a message replies to, as JSON: zero and false are left out.
pub open spec fn reply_json(reply: RichMessageReplyParameters) -> Seq<char> {
    "{\"message_id\":"@ + numeral::decimal(reply.message_id as int) + (if reply.chat_id == 0 {
        Seq::<char>::empty()
    } else {
        ",\"chat_id\":"@ + numeral::decimal(reply.chat_id as int)
    }) + (if reply.allow_sending_without_reply {
        ",\"allow_sending_without_reply\":true"@
    } else {
        Seq::<char>::empty()
    }) + "}"@
}

pub fn encode_reply(reply: RichMessageReplyParameters) -> (out: String)
    ensures
        out@ == reply_json(reply),
{
    let message: String = format_i32(reply.message_id);
    let mut out: String = text::joined2("{\"message_id\":", message.as_str());
    if reply.chat_id != 0 {
        let chat: String = format_i64(reply.chat_id);
        out.append(",\"chat_id\":");
        out.append(chat.as_str());
    }
    if reply.allow_sending_without_reply {
        out.append(",\"allow_sending_without_reply\":true");
    }
    out.append("}");
    assert(out@ =~= reply_json(reply));
    out
}

/// The fields of a form.
pub open spec fn fields_model(fields: Seq<(&'static str, String)>) -> Seq<(Seq<char>, Seq<char>)> {
    Seq::new(fields.len(), |i: int| (fields[i].0@, fields[i].1@))
}

/// The form of a rich message whose Markdown is `quoted` as a JSON string.
pub open spec fn rich_form(
    chat_id: int,
    quoted: Seq<char>,
    reply: Option<RichMessageReplyParameters>,
    reply_markup: Option<Seq<char>>,
    disable_notification: bool,
) -> Seq<(Seq<char>, Seq<char>)> {
    (if chat_id == 0 {
        Seq::<(Seq<char>, Seq<char>)>::empty()
    } else {
        seq![("chat_id"@, numeral::decimal(chat_id))]
    }) + seq![("rich_message"@, "{\"markdown\":"@ + quoted + "}"@)] + (match reply {
        Some(parameters) => seq![("reply_parameters"@, reply_json(parameters))],
        None => Seq::<(Seq<char>, Seq<char>)>::empty(),
    }) + (match reply_markup {
        Some(markup) => seq![("reply_markup"@, markup)],
        None => Seq::<(Seq<char>, Seq<char>)>::empty(),
    }) + (if disable_notification {
        seq![("disable_notification"@, "true"@)]
    } else {
        Seq::<(Seq<char>, Seq<char>)>::empty()
    })
}

/// The form of a rich message whose Markdown is `quoted` as a JSON string.
pub fn form_with_quoted(
    chat_id: i64,
    quoted: &str,
    reply: Option<RichMessageReplyParameters>,
    reply_markup: Option<String>,
    disable_notification: bool,
) -> (form: Vec<(&'static str, String)>)
    ensures
        fields_model(form@) == rich_form(
            chat_id as int,
            quoted@,
            reply,
            text::viewed(reply_markup),
            disable_notification,
        ),
{
    let mut form: Vec<(&'static str, String)> = Vec::new();
    if chat_id != 0 {
        form.push(("chat_id", format_i64(chat_id)));
    }
    form.push(("rich_message", text::joined3("{\"markdown\":", quoted, "}")));
    match reply {
        Some(parameters) => {
            form.push(("reply_parameters", encode_reply(parameters)));
        },
        None => {},
    }
    match reply_markup {
        Some(markup) => {
            form.push(("reply_markup", markup));
        },
        None => {},
    }
    if disable_notification {
        form.push(("disable_notification", "true".to_owned()));
    }
    assert(fields_model(form@) =~= rich_form(
        chat_id as int,
        quoted@,
        reply,
        text::viewed(reply_markup),
        disable_notification,
    ));
    form
}

/// The form of a rich message.
pub fn rich_message_form(
    chat_id: i64,
    markdown: &str,
    reply: Option<RichMessageReplyParameters>,
    reply_markup: Option<String>,
    disable_notification: bool,
) -> (form: Vec<(&'static str, String)>)
    ensures
        fields_model(form@) == rich_form(
            chat_id as int,
            json_string(markdown@),
            reply,
            text::viewed(reply_markup),
            disable_notification,
        ),
{
    form_with_quoted(
        chat_id,
        quote_json(markdown).as_str(),
        reply,
        reply_markup,
        disable_notification,
    )
}

// ---------------------------------------------------------------------------
// The address
// ---------------------------------------------------------------------------

/// The address that `url` gives for a base with two more path segments; none where the
/// base does not parse or cannot have segments.
pub uninterp spec fn url_below(base: Seq<char>, first: Seq<char>, second: Seq<char>) -> Option<
    Seq<char>,
>;

/// `url::Url::parse`, then `path_segments_mut`, `pop_if_empty` and two `push` calls: the
/// address is named and nothing more is claimed. `path_segments_mut` and what drops its
/// result panic where a position leaves 32 bits: what leads there is left out.
#[verifier::external_body]
fn address_below(base: &str, first: &str, second: &str) -> (r: Option<String>)
    requires
        address::roomy(address::url_serialized(base@), first@, second@),
    ensures
        text::viewed(r) == url_below(base@, first@, second@),
{
    let mut address = url::Url::parse(base).ok()?;
    match address.path_segments_mut() {
        Ok(mut segments) => {
            segments.pop_if_empty().push(first).push(second);
        },
        Err(_) => return None,
    }
    Some(address.to_string())
}

/// The address below a base that reads as `serialized`; none where the path would outgrow
/// what an address can be.
pub open spec fn endpoint_with(
    serialized: Option<Seq<char>>,
    base: Seq<char>,
    first: Seq<char>,
    second: Seq<char>,
) -> Option<Seq<char>> {
    if address::roomy(serialized, first, second) {
        url_below(base, first, second)
    } else {
        None
    }
}

/// Where rich messages are sent: below the API endpoint, with the token in the path; none
/// where the path would outgrow what an address can be.
pub fn rich_message_endpoint(config: &TelegramConfig) -> (r: Option<String>)
    ensures
        text::viewed(r) == endpoint_with(
            address::url_serialized(config@.api_endpoint),
            config@.api_endpoint,
            "bot"@ + config@.bot_token,
            "sendRichMessage"@,
        ),
{
    let token: String = text::joined2("bot", config.bot_token.as_str());
    let base: &str = config.api_endpoint.as_str();
    let serialized: Option<String> = address::serialize_url(base);
    if !address::has_room(&serialized, token.as_str(), "sendRichMessage") {
        return None;
    }
    address_below(base, token.as_str(), "sendRichMessage")
}

// ---------------------------------------------------------------------------
// The reply
// ---------------------------------------------------------------------------

/// The envelope that Telegram answers with, without the message inside.
#[derive(Debug, PartialEq, Eq)]
pub struct ResponseEnvelope {
    pub ok: bool,
    pub has_result: bool,
    pub error_code: Option<i32>,
    pub description: Option<String>,
    pub parameters: Option<TelegramResponseParameters>,
}

/// What an envelope amounts to: a message to be read, or an error. A refusal without a
/// code takes the HTTP status, and one without a description a stock one.
pub open spec fn envelope_error(envelope: ResponseEnvelope, status: u16) -> Option<SendErrorModel> {
    if !envelope.ok {
        Some(
            SendErrorModel::Api {
                code: match envelope.error_code {
                    Some(code) => code,
                    None => status as i32,
                },
                description: match envelope.description {
                    Some(description) => description@,
                    None => "Telegram API request failed"@,
                },
                parameters: match envelope.parameters {
                    Some(parameters) => parameters,
                    None => TelegramResponseParameters { migrate_to_chat_id: 0, retry_after: 0 },
                },
            },
        )
    } else if !envelope.has_result {
        Some(SendErrorModel::InvalidResponse)
    } else {
        None
    }
}

/// The model of an optional error.
pub open spec fn error_model(error: Option<TelegramRichMessageError>) -> Option<SendErrorModel> {
    match error {
        Some(found) => Some(found@),
        None => None,
    }
}

pub fn judge_envelope(envelope: ResponseEnvelope, status: u16) -> (r: Option<
    TelegramRichMessageError,
>)
    ensures
        error_model(r) == envelope_error(envelope, status),
{
    if !envelope.ok {
        let code: i32 = match envelope.error_code {
            Some(code) => code,
            None => status as i32,
        };
        let description: String = match envelope.description {
            Some(description) => description,
            None => "Telegram API request failed".to_owned(),
        };
        let parameters: TelegramResponseParameters = match envelope.parameters {
            Some(parameters) => parameters,
            None => TelegramResponseParameters::default(),
        };
        return Some(TelegramRichMessageError::Api { code, description, parameters });
    }
    if !envelope.has_result {
        return Some(TelegramRichMessageError::InvalidResponse);
    }
    None
}

} // verus!
