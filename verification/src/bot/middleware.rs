//! What is recorded of every message, before it is acted on.

use vstd::prelude::*;

use crate::bot::payloads::{self, to_go_json};
use crate::numeral::{self, format_i64};
use crate::redis::commands::{self, append_forwarded, RedisCommand};
use crate::reply::Reply;
use crate::services::message_capture::{
    self, full_name_from_first_and_last_name, telegram_date_to_unix_millis, CapturedMessage,
};
use crate::services::recap_generation::PrivateForwardedReplayChatHistory;
use crate::services::telegram_rich_message::{self, quote_json};
use crate::text::same;

verus! {

/// What is known of a message to be recorded so far.
pub struct Recording {
    /// Telegram's spelling of the type of the chat.
    pub chat_kind: String,
    /// The number of the sender, if there is one.
    pub sender: Option<i64>,
    pub store_available: bool,
    /// There is something to preview links and summarize with.
    pub preprocessor_ready: bool,
    /// Whether recaps are switched on in the group.
    pub recap_enabled: Reply<bool>,
    /// Whether the sender has a session open.
    pub session_open: Reply<bool>,
}

/// What is to be done to record a message.
#[derive(Debug, Clone, Copy, PartialEq, Eq, Structural)]
pub enum RecordStep {
    Skip,
    ReadFlag,
    ReadSession { user_id: i64 },
    /// Capture the message and store it.
    Capture,
    /// Extract the text and append it to the session.
    Append { user_id: i64 },
}

/// What is to be done to record a message: in a group where recaps are on it is stored, in
/// private it goes into an open session, and elsewhere nothing is recorded.
pub open spec fn record_step(recording: Recording) -> RecordStep {
    if recording.chat_kind@ == "group"@ || recording.chat_kind@ == "supergroup"@ {
        match recording.recap_enabled {
            Reply::Pending => RecordStep::ReadFlag,
            Reply::Got(true) => if recording.preprocessor_ready {
                RecordStep::Capture
            } else {
                RecordStep::Skip
            },
            _ => RecordStep::Skip,
        }
    } else if recording.chat_kind@ == "private"@ {
        match recording.sender {
            None => RecordStep::Skip,
            Some(user_id) => if !recording.store_available {
                RecordStep::Skip
            } else {
                match recording.session_open {
                    Reply::Pending => RecordStep::ReadSession { user_id },
                    Reply::Got(true) => if recording.preprocessor_ready {
                        RecordStep::Append { user_id }
                    } else {
                        RecordStep::Skip
                    },
                    _ => RecordStep::Skip,
                }
            },
        }
    } else {
        RecordStep::Skip
    }
}

/// What is to be done to record a message.
pub fn record_captured_message_step(recording: &Recording) -> (step: RecordStep)
    ensures
        step == record_step(*recording),
{
    let kind: &str = recording.chat_kind.as_str();
    if same(kind, "group") || same(kind, "supergroup") {
        match &recording.recap_enabled {
            Reply::Pending => RecordStep::ReadFlag,
            Reply::Failed => RecordStep::Skip,
            Reply::Got(enabled) => if *enabled && recording.preprocessor_ready {
                RecordStep::Capture
            } else {
                RecordStep::Skip
            },
        }
    } else if same(kind, "private") {
        match recording.sender {
            None => RecordStep::Skip,
            Some(user_id) => {
                if !recording.store_available {
                    return RecordStep::Skip;
                }
                match &recording.session_open {
                    Reply::Pending => RecordStep::ReadSession { user_id },
                    Reply::Failed => RecordStep::Skip,
                    Reply::Got(open) => if *open && recording.preprocessor_ready {
                        RecordStep::Append { user_id }
                    } else {
                        RecordStep::Skip
                    },
                }
            },
        }
    } else {
        RecordStep::Skip
    }
}

/// A message is stored only where recaps are on, and appended only to an open session.
pub proof fn lemma_recorded_by_consent(recording: Recording)
    ensures
        record_step(recording) == RecordStep::Capture ==> recording.recap_enabled == Reply::Got(
            true,
        ),
        record_step(recording) is Append ==> recording.session_open == Reply::Got(true)
            && recording.chat_kind@ == "private"@,
{
}

/// Who a message is from, in private: the user or chat it was forwarded from, or else the
/// sender.
pub open spec fn replay_actor(message: CapturedMessage) -> (Seq<char>, Seq<char>) {
    match message.forward_from {
        Some(user) => (
            message_capture::full_name(user.first_name@, user.last_name@),
            user.username@,
        ),
        None => match message.forward_from_chat {
            Some(chat) => (chat.title@, Seq::empty()),
            None => (
                message_capture::full_name(message.from.first_name@, message.from.last_name@),
                message.from.username@,
            ),
        },
    }
}

/// The message as it is replayed later, and the millisecond it was sent at.
pub fn private_forwarded_replay_entry(message: &CapturedMessage, text: &str) -> (r: (
    PrivateForwardedReplayChatHistory,
    i64,
))
    ensures
        r.0.message_id == message.message_id,
        (r.0.actor_display_name@, r.0.actor_username@) == replay_actor(*message),
        r.0.text@ == text@,
        r.1 == message.date.wrapping_mul(1000),
{
    let (actor_display_name, actor_username): (String, String) = match &message.forward_from {
        Some(user) => (
            full_name_from_first_and_last_name(user.first_name.as_str(), user.last_name.as_str()),
            user.username.clone(),
        ),
        None => match &message.forward_from_chat {
            Some(chat) => (chat.title.clone(), String::new()),
            None => (
                full_name_from_first_and_last_name(
                    message.from.first_name.as_str(),
                    message.from.last_name.as_str(),
                ),
                message.from.username.clone(),
            ),
        },
    };
    (
        PrivateForwardedReplayChatHistory {
            message_id: message.message_id,
            actor_display_name,
            actor_username,
            text: text.to_owned(),
        },
        telegram_date_to_unix_millis(message.date),
    )
}

/// What is stored of a message to be replayed.
pub open spec fn replay_json(
    message_id: int,
    actor: (Seq<char>, Seq<char>),
    text: Seq<char>,
    chatted_at: int,
) -> Seq<char> {
    payloads::html_safe(
        "{\"message_id\":"@ + numeral::decimal(message_id) + ",\"actor_display_name\":"@
            + telegram_rich_message::json_string(actor.0) + ",\"actor_username\":"@
            + telegram_rich_message::json_string(actor.1) + ",\"text\":"@
            + telegram_rich_message::json_string(text) + ",\"chatted_at\":"@ + numeral::decimal(
            chatted_at,
        ) + "}"@,
    )
}

/// What is stored of a message to be replayed.
pub fn encode_replay_entry(entry: &PrivateForwardedReplayChatHistory, chatted_at: i64) -> (out:
    String)
    ensures
        out@ == replay_json(
            entry.message_id as int,
            (entry.actor_display_name@, entry.actor_username@),
            entry.text@,
            chatted_at as int,
        ),
{
    let mut json: String = "{\"message_id\":".to_owned();
    json.append(format_i64(entry.message_id).as_str());
    json.append(",\"actor_display_name\":");
    json.append(quote_json(entry.actor_display_name.as_str()).as_str());
    json.append(",\"actor_username\":");
    json.append(quote_json(entry.actor_username.as_str()).as_str());
    json.append(",\"text\":");
    json.append(quote_json(entry.text.as_str()).as_str());
    json.append(",\"chatted_at\":");
    json.append(format_i64(chatted_at).as_str());
    json.append("}");
    to_go_json(json.as_str())
}

/// What is sent to the store to append a message to the session of its sender: nothing
/// where no text is left of it.
pub fn append_private_message(user_id: i64, message: &CapturedMessage, text: &str) -> (r: Option<
    Vec<RedisCommand>,
>)
    ensures
        match r {
            None => text@.len() == 0,
            Some(sent) => text@.len() > 0 && commands::script(sent@) == commands::append_script(
                user_id as int,
                message.date.wrapping_mul(1000),
                replay_json(
                    message.message_id as int,
                    replay_actor(*message),
                    text@,
                    message.date.wrapping_mul(1000) as int,
                ),
            ),
        },
{
    if text.is_empty() {
        return None;
    }
    let (entry, chatted_at): (PrivateForwardedReplayChatHistory, i64) =
        private_forwarded_replay_entry(message, text);
    let json: String = encode_replay_entry(&entry, chatted_at);
    Some(append_forwarded(user_id, chatted_at, json.as_str()))
}

} // verus!
