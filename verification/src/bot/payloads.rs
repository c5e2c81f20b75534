//! What buttons and links carry. The bytes of a payload decide the hash that a button
//! shows, so field names, field order and escapes are fixed.

use vstd::prelude::*;

use crate::numeral::{self, format_i64};
use crate::services::telegram_rich_message::{self, quote_json};
use crate::text::{self, joined2};

verus! {

/// JSON as it is stored: the characters that HTML gives a meaning, and the two line
/// separators, are escaped.
pub open spec fn html_safe(json: Seq<char>) -> Seq<char> {
    text::replaced(
        text::replaced(
            text::replaced(
                text::replaced(text::replaced(json, "&"@, "\\u0026"@), "<"@, "\\u003c"@),
                ">"@,
                "\\u003e"@,
            ),
            "\u{2028}"@,
            "\\u2028"@,
        ),
        "\u{2029}"@,
        "\\u2029"@,
    )
}

/// JSON as it is stored.
pub fn to_go_json(json: &str) -> (out: String)
    ensures
        out@ == html_safe(json@),
{
    proof {
        reveal_strlit("&");
        reveal_strlit("<");
        reveal_strlit(">");
        reveal_strlit("\u{2028}");
        reveal_strlit("\u{2029}");
    }
    let a: String = text::replace(json, "&", "\\u0026");
    let b: String = text::replace(a.as_str(), "<", "\\u003c");
    let c: String = text::replace(b.as_str(), ">", "\\u003e");
    let d: String = text::replace(c.as_str(), "\u{2028}", "\\u2028");
    text::replace(d.as_str(), "\u{2029}", "\\u2029")
}

pub open spec fn boolean_json(b: bool) -> Seq<char> {
    if b {
        "true"@
    } else {
        "false"@
    }
}

fn boolean_text(b: bool) -> (out: &'static str)
    ensures
        out@ == boolean_json(b),
{
    if b {
        "true"
    } else {
        "false"
    }
}

/// A choice of hours.
#[derive(Debug, Clone, PartialEq, Eq)]
pub struct SelectHourCallbackData {
    pub hour: i64,
    pub chat_id: i64,
    pub chat_title: String,
    pub recap_mode: i64,
}

pub open spec fn select_hour_json(data: SelectHourCallbackData) -> Seq<char> {
    html_safe(
        "{\"hour\":"@ + numeral::decimal(data.hour as int)
            + ",\"chat_id\":"@ + numeral::decimal(data.chat_id as int)
            + ",\"chat_title\":"@ + telegram_rich_message::json_string(data.chat_title@)
            + ",\"recap_mode\":"@ + numeral::decimal(data.recap_mode as int)
            + "}"@,
    )
}

impl SelectHourCallbackData {
    /// What the button of an hour carries.
    pub fn to_json(&self) -> (out: String)
        ensures
            out@ == select_hour_json(*self),
    {
        let mut json: String = "{\"hour\":".to_owned();
        json.append(format_i64(self.hour).as_str());
        json.append(",\"chat_id\":");
        json.append(format_i64(self.chat_id).as_str());
        json.append(",\"chat_title\":");
        json.append(quote_json(self.chat_title.as_str()).as_str());
        json.append(",\"recap_mode\":");
        json.append(format_i64(self.recap_mode).as_str());
        json.append("}");
        to_go_json(json.as_str())
    }
}

/// The hours that can be chosen.
pub const RECAP_SELECT_HOURS: [i64; 6] = [1, 2, 4, 6, 12, 24];

pub open spec fn is_choice(hour: i64) -> bool {
    hour == 1 || hour == 2 || hour == 4 || hour == 6 || hour == 12 || hour == 24
}

/// An hour that cannot be chosen.
#[derive(Debug, Clone, Copy, PartialEq, Eq, Structural)]
pub struct InvalidHour {
    pub hour: i64,
}

impl InvalidHour {
    pub fn message(self) -> (out: String)
        ensures
            out@ == "invalid hour: "@ + numeral::decimal(self.hour as int),
    {
        let number: String = format_i64(self.hour);
        joined2("invalid hour: ", number.as_str())
    }
}

impl SelectHourCallbackData {
    /// The choice, where its hour can be chosen.
    pub fn checked(self) -> (r: Result<Self, InvalidHour>)
        ensures
            r == if is_choice(self.hour) {
                Ok(self)
            } else {
                Err(InvalidHour { hour: self.hour })
            },
    {
        if self.hour == 1 || self.hour == 2 || self.hour == 4 || self.hour == 6 || self.hour == 12
            || self.hour == 24 {
            Ok(self)
        } else {
            Err(InvalidHour { hour: self.hour })
        }
    }
}

/// A reaction to a recap.
#[derive(Debug, Clone, PartialEq, Eq)]
pub struct FeedbackRecapReactionActionData {
    pub chat_id: i64,
    pub log_id: String,
    pub reaction_type: String,
}

pub open spec fn feedback_json(data: FeedbackRecapReactionActionData) -> Seq<char> {
    html_safe(
        "{\"chatId\":"@ + numeral::decimal(data.chat_id as int)
            + ",\"logId\":"@ + telegram_rich_message::json_string(data.log_id@)
            + ",\"type\":"@ + telegram_rich_message::json_string(data.reaction_type@)
            + "}"@,
    )
}

impl FeedbackRecapReactionActionData {
    /// What the button of a reaction carries.
    pub fn to_json(&self) -> (out: String)
        ensures
            out@ == feedback_json(*self),
    {
        let mut json: String = "{\"chatId\":".to_owned();
        json.append(format_i64(self.chat_id).as_str());
        json.append(",\"logId\":");
        json.append(quote_json(self.log_id.as_str()).as_str());
        json.append(",\"type\":");
        json.append(quote_json(self.reaction_type.as_str()).as_str());
        json.append("}");
        to_go_json(json.as_str())
    }
}

/// The chat that a link leads back to.
#[derive(Debug, Clone, PartialEq, Eq)]
pub struct PrivateSubscriptionStartContext {
    pub chat_id: i64,
    pub chat_title: String,
}

pub open spec fn start_context_json(data: PrivateSubscriptionStartContext) -> Seq<char> {
    html_safe(
        "{\"chat_id\":"@ + numeral::decimal(data.chat_id as int)
            + ",\"chat_title\":"@ + telegram_rich_message::json_string(data.chat_title@)
            + "}"@,
    )
}

impl PrivateSubscriptionStartContext {
    /// What a link carries.
    pub fn to_json(&self) -> (out: String)
        ensures
            out@ == start_context_json(*self),
    {
        let mut json: String = "{\"chat_id\":".to_owned();
        json.append(format_i64(self.chat_id).as_str());
        json.append(",\"chat_title\":");
        json.append(quote_json(self.chat_title.as_str()).as_str());
        json.append("}");
        to_go_json(json.as_str())
    }
}

/// Who unsubscribes from what.
#[derive(Debug, Clone, PartialEq, Eq)]
pub struct UnsubscribeRecapActionData {
    pub chat_id: i64,
    pub chat_title: String,
    pub from_id: i64,
}

pub open spec fn unsubscribe_json(data: UnsubscribeRecapActionData) -> Seq<char> {
    html_safe(
        "{\"chatId\":"@ + numeral::decimal(data.chat_id as int)
            + ",\"chatTitle\":"@ + telegram_rich_message::json_string(data.chat_title@)
            + ",\"fromId\":"@ + numeral::decimal(data.from_id as int)
            + "}"@,
    )
}

impl UnsubscribeRecapActionData {
    /// What the button to unsubscribe carries.
    pub fn to_json(&self) -> (out: String)
        ensures
            out@ == unsubscribe_json(*self),
    {
        let mut json: String = "{\"chatId\":".to_owned();
        json.append(format_i64(self.chat_id).as_str());
        json.append(",\"chatTitle\":");
        json.append(quote_json(self.chat_title.as_str()).as_str());
        json.append(",\"fromId\":");
        json.append(format_i64(self.from_id).as_str());
        json.append("}");
        to_go_json(json.as_str())
    }
}

/// Recaps on or off.
#[derive(Debug, Clone, Copy, PartialEq, Eq, Structural)]
pub struct ToggleActionData {
    pub status: bool,
    pub chat_id: i64,
    pub from_id: i64,
}

pub open spec fn toggle_json(data: ToggleActionData) -> Seq<char> {
    html_safe(
        "{\"status\":"@ + boolean_json(data.status)
            + ",\"chatId\":"@ + numeral::decimal(data.chat_id as int)
            + ",\"fromId\":"@ + numeral::decimal(data.from_id as int)
            + "}"@,
    )
}

impl ToggleActionData {
    /// What a switch carries.
    pub fn to_json(&self) -> (out: String)
        ensures
            out@ == toggle_json(*self),
    {
        let mut json: String = "{\"status\":".to_owned();
        json.append(boolean_text(self.status));
        json.append(",\"chatId\":");
        json.append(format_i64(self.chat_id).as_str());
        json.append(",\"fromId\":");
        json.append(format_i64(self.from_id).as_str());
        json.append("}");
        to_go_json(json.as_str())
    }
}

/// A delivery mode.
#[derive(Debug, Clone, Copy, PartialEq, Eq, Structural)]
pub struct AssignModeActionData {
    pub mode: i64,
    pub chat_id: i64,
    pub from_id: i64,
}

pub open spec fn assign_mode_json(data: AssignModeActionData) -> Seq<char> {
    html_safe(
        "{\"mode\":"@ + numeral::decimal(data.mode as int)
            + ",\"chatId\":"@ + numeral::decimal(data.chat_id as int)
            + ",\"fromId\":"@ + numeral::decimal(data.from_id as int)
            + "}"@,
    )
}

impl AssignModeActionData {
    /// What the button of a mode carries.
    pub fn to_json(&self) -> (out: String)
        ensures
            out@ == assign_mode_json(*self),
    {
        let mut json: String = "{\"mode\":".to_owned();
        json.append(format_i64(self.mode).as_str());
        json.append(",\"chatId\":");
        json.append(format_i64(self.chat_id).as_str());
        json.append(",\"fromId\":");
        json.append(format_i64(self.from_id).as_str());
        json.append("}");
        to_go_json(json.as_str())
    }
}

/// The end of a configuration.
#[derive(Debug, Clone, Copy, PartialEq, Eq, Structural)]
pub struct CompleteActionData {
    pub chat_id: i64,
    pub from_id: i64,
}

pub open spec fn complete_json(data: CompleteActionData) -> Seq<char> {
    html_safe(
        "{\"chatId\":"@ + numeral::decimal(data.chat_id as int)
            + ",\"fromId\":"@ + numeral::decimal(data.from_id as int)
            + "}"@,
    )
}

impl CompleteActionData {
    /// What the last button carries.
    pub fn to_json(&self) -> (out: String)
        ensures
            out@ == complete_json(*self),
    {
        let mut json: String = "{\"chatId\":".to_owned();
        json.append(format_i64(self.chat_id).as_str());
        json.append(",\"fromId\":");
        json.append(format_i64(self.from_id).as_str());
        json.append("}");
        to_go_json(json.as_str())
    }
}

/// A daily rate.
#[derive(Debug, Clone, Copy, PartialEq, Eq, Structural)]
pub struct RatesActionData {
    pub rates: i64,
    pub chat_id: i64,
    pub from_id: i64,
}

pub open spec fn rates_json(data: RatesActionData) -> Seq<char> {
    html_safe(
        "{\"rates\":"@ + numeral::decimal(data.rates as int)
            + ",\"chatId\":"@ + numeral::decimal(data.chat_id as int)
            + ",\"fromId\":"@ + numeral::decimal(data.from_id as int)
            + "}"@,
    )
}

impl RatesActionData {
    /// What the button of a rate carries.
    pub fn to_json(&self) -> (out: String)
        ensures
            out@ == rates_json(*self),
    {
        let mut json: String = "{\"rates\":".to_owned();
        json.append(format_i64(self.rates).as_str());
        json.append(",\"chatId\":");
        json.append(format_i64(self.chat_id).as_str());
        json.append(",\"fromId\":");
        json.append(format_i64(self.from_id).as_str());
        json.append("}");
        to_go_json(json.as_str())
    }
}

/// Pinning on or off.
#[derive(Debug, Clone, Copy, PartialEq, Eq, Structural)]
pub struct PinActionData {
    pub status: bool,
    pub chat_id: i64,
}

pub open spec fn pin_json(data: PinActionData) -> Seq<char> {
    html_safe(
        "{\"status\":"@ + boolean_json(data.status)
            + ",\"chatId\":"@ + numeral::decimal(data.chat_id as int)
            + "}"@,
    )
}

impl PinActionData {
    /// What a switch carries.
    pub fn to_json(&self) -> (out: String)
        ensures
            out@ == pin_json(*self),
    {
        let mut json: String = "{\"status\":".to_owned();
        json.append(boolean_text(self.status));
        json.append(",\"chatId\":");
        json.append(format_i64(self.chat_id).as_str());
        json.append("}");
        to_go_json(json.as_str())
    }
}

/// What a link back to a chat carries.
pub fn encode_start_context(chat_id: i64, chat_title: &str) -> (out: String)
    ensures
        out@ == html_safe(
            "{\"chat_id\":"@ + numeral::decimal(chat_id as int) + ",\"chat_title\":"@
                + telegram_rich_message::json_string(chat_title@) + "}"@,
        ),
{
    let context = PrivateSubscriptionStartContext { chat_id, chat_title: chat_title.to_owned() };
    context.to_json()
}

} // verus!
