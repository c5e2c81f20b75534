//! The rows of the recap tables.

use vstd::prelude::*;

use crate::text::same;

verus! {

/// One known chat.
#[derive(Debug, Clone, PartialEq, Eq)]
pub struct Chat {
    pub id: i64,
    pub title: Option<String>,
    pub username: Option<String>,
    pub kind: Option<String>,
    pub created_at: Option<i64>,
    pub updated_at: Option<i64>,
}

#[derive(Debug, Clone, Copy, PartialEq, Eq, Structural)]
pub enum MessageKind {
    Text,
    Photo,
    Video,
    Audio,
    Voice,
    Document,
    Sticker,
    Other,
}

pub open spec fn kind_name(kind: MessageKind) -> Seq<char> {
    match kind {
        MessageKind::Text => "text"@,
        MessageKind::Photo => "photo"@,
        MessageKind::Video => "video"@,
        MessageKind::Audio => "audio"@,
        MessageKind::Voice => "voice"@,
        MessageKind::Document => "document"@,
        MessageKind::Sticker => "sticker"@,
        MessageKind::Other => "other"@,
    }
}

impl MessageKind {
    pub fn as_str(&self) -> (out: &'static str)
        ensures
            out@ == kind_name(*self),
    {
        match self {
            MessageKind::Text => "text",
            MessageKind::Photo => "photo",
            MessageKind::Video => "video",
            MessageKind::Audio => "audio",
            MessageKind::Voice => "voice",
            MessageKind::Document => "document",
            MessageKind::Sticker => "sticker",
            MessageKind::Other => "other",
        }
    }
}

/// One stored message. A missing sender or text is zero or empty.
#[derive(Debug, Clone, PartialEq, Eq)]
pub struct ChatHistory {
    pub id: i64,
    pub chat_id: i64,
    pub message_id: i64,
    pub from_id: i64,
    pub from_full_name: String,
    pub from_username: String,
    pub kind: String,
    pub text: String,
    pub media_url: String,
    pub created_at: i64,
}

/// The recap settings of one chat.
#[derive(Debug, Clone, PartialEq, Eq)]
pub struct RecapConfig {
    pub chat_id: i64,
    pub enabled: bool,
    pub auto_recap_enabled: bool,
    pub last_recap_at: Option<i64>,
    pub updated_at: Option<i64>,
    /// Automatic recaps per day: 2, 3 or 4.
    pub auto_recap_rates_per_day: i32,
    /// Whether automatic recaps are pinned in the group.
    pub pin_auto_recap_message: bool,
    /// The recap that was pinned last, to be unpinned before the next one.
    pub last_pinned_message_id: Option<i64>,
}

/// Telegram's spelling for a basic group.
pub const CHAT_TYPE_GROUP: &'static str = "group";

/// Telegram's spelling for a supergroup.
pub const CHAT_TYPE_SUPERGROUP: &'static str = "supergroup";

/// The two chat types that recaps are offered in.
pub const RECAP_ELIGIBLE_CHAT_TYPES: [&'static str; 2] = ["group", "supergroup"];

/// The language of a chat for which none was stored.
pub const DEFAULT_FEATURE_LANGUAGE: &'static str = "en";

/// The chat types that recaps are offered in.
pub open spec fn eligible(chat_type: Seq<char>) -> bool {
    chat_type == CHAT_TYPE_GROUP@ || chat_type == CHAT_TYPE_SUPERGROUP@
}

pub fn is_recap_eligible(chat_type: &str) -> (r: bool)
    ensures
        r == eligible(chat_type@),
{
    same(chat_type, CHAT_TYPE_GROUP) || same(chat_type, CHAT_TYPE_SUPERGROUP)
}

/// One row of `telegram_chat_feature_flags`.
#[derive(Debug, Clone, PartialEq, Eq)]
pub struct TelegramChatFeatureFlags {
    pub id: String,
    pub chat_id: i64,
    pub chat_type: String,
    pub chat_title: String,
    pub feature_chat_histories_recap: bool,
    pub feature_language: String,
    /// Unix milliseconds.
    pub created_at: i64,
    /// Unix milliseconds.
    pub updated_at: i64,
}

/// Where an automatic recap is delivered.
#[derive(Debug, Clone, Copy, PartialEq, Eq, Structural)]
pub enum AutoRecapSendMode {
    /// Sent into the group itself.
    Publicly,
    /// Sent only to users who subscribed privately.
    OnlyPrivateSubscriptions,
}

/// The integer that stands for a mode.
pub open spec fn stored_mode(mode: AutoRecapSendMode) -> i64 {
    match mode {
        AutoRecapSendMode::Publicly => 0,
        AutoRecapSendMode::OnlyPrivateSubscriptions => 1,
    }
}

/// The mode that a stored integer stands for; an unknown one stands for none.
pub open spec fn mode_of(stored: i64) -> Option<AutoRecapSendMode> {
    if stored == 0 {
        Some(AutoRecapSendMode::Publicly)
    } else if stored == 1 {
        Some(AutoRecapSendMode::OnlyPrivateSubscriptions)
    } else {
        None
    }
}

impl AutoRecapSendMode {
    pub fn as_stored(self) -> (n: i64)
        ensures
            n == stored_mode(self),
    {
        match self {
            AutoRecapSendMode::Publicly => 0,
            AutoRecapSendMode::OnlyPrivateSubscriptions => 1,
        }
    }

    pub fn from_stored(stored: i64) -> (r: Option<Self>)
        ensures
            r == mode_of(stored),
    {
        if stored == 0 {
            Some(AutoRecapSendMode::Publicly)
        } else if stored == 1 {
            Some(AutoRecapSendMode::OnlyPrivateSubscriptions)
        } else {
            None
        }
    }
}

/// A mode is read back from the integer that is stored for it, and only from that.
pub proof fn lemma_stored_mode(mode: AutoRecapSendMode, stored: i64)
    ensures
        mode_of(stored_mode(mode)) == Some(mode),
        mode_of(stored) == Some(mode) ==> stored == stored_mode(mode),
{
}

/// One row of `telegram_chat_recaps_options`.
#[derive(Debug, Clone, PartialEq, Eq)]
pub struct TelegramChatRecapsOptions {
    pub id: String,
    pub chat_id: i64,
    /// The stored integer, known or not.
    pub auto_recap_send_mode: i64,
    pub manual_recap_rate_per_seconds: i64,
    pub auto_recap_rates_per_day: i64,
    pub pin_auto_recap_message: bool,
    /// Unix milliseconds.
    pub created_at: i64,
    /// Unix milliseconds.
    pub updated_at: i64,
}

impl TelegramChatRecapsOptions {
    /// The known send mode, or none where the stored integer is unknown.
    pub fn send_mode(&self) -> (r: Option<AutoRecapSendMode>)
        ensures
            r == mode_of(self.auto_recap_send_mode),
    {
        AutoRecapSendMode::from_stored(self.auto_recap_send_mode)
    }
}

/// One row of `telegram_chat_auto_recaps_subscribers`. Two rows may hold the same chat
/// and user.
#[derive(Debug, Clone, PartialEq, Eq)]
pub struct TelegramChatAutoRecapsSubscriber {
    pub id: String,
    pub chat_id: i64,
    pub user_id: i64,
    /// Unix milliseconds.
    pub created_at: i64,
    /// Unix milliseconds.
    pub updated_at: i64,
}

/// One logged recap.
#[derive(Debug, Clone, PartialEq, Eq)]
pub struct RecapLog {
    pub id: String,
    pub chat_id: i64,
    pub prompt: Option<String>,
    pub recap_text: Option<String>,
    pub model: Option<String>,
    pub prompt_tokens: Option<i32>,
    pub completion_tokens: Option<i32>,
    pub created_at: Option<i64>,
}

/// Tokens that completions used.
#[derive(Debug, Clone, Copy, PartialEq, Eq, Structural)]
pub struct TokenUsage {
    pub prompt_tokens: i64,
    pub completion_tokens: i64,
    pub total_tokens: i64,
}

/// The platform number of messages from Telegram.
pub const FROM_PLATFORM_TELEGRAM: i64 = 0;

/// The type number of an automatic recap among the sent messages.
pub const MESSAGE_TYPE_AUTO_RECAP: i64 = 0;

/// The type number of a recap of a group.
pub const RECAP_TYPE_FOR_GROUP: i64 = 0;

/// The type number of a recap of messages that were forwarded in private.
pub const RECAP_TYPE_FOR_PRIVATE_FORWARDED: i64 = 1;

/// An automatic recap that was sent.
#[derive(Debug, Clone, PartialEq, Eq)]
pub struct SentMessage {
    pub id: String,
    pub chat_id: i64,
    pub message_id: i64,
    pub text: String,
    pub is_pinned: bool,
    pub from_platform: i64,
    pub message_type: i64,
    /// Unix milliseconds.
    pub created_at: i64,
    /// Unix milliseconds.
    pub updated_at: i64,
}

/// What a user thinks of a recap.
#[derive(Debug, Clone, Copy, PartialEq, Eq, Structural)]
pub enum ReactionType {
    NoReaction,
    UpVote,
    DownVote,
    Lmao,
}

/// The spelling that is stored for a reaction.
pub open spec fn reaction_name(reaction: ReactionType) -> Seq<char> {
    match reaction {
        ReactionType::NoReaction => "none"@,
        ReactionType::UpVote => "up_vote"@,
        ReactionType::DownVote => "down_vote"@,
        ReactionType::Lmao => "lmao"@,
    }
}

/// The reaction that a spelling stands for; an unknown one stands for none of them.
pub open spec fn reaction_of(stored: Seq<char>) -> Option<ReactionType> {
    if stored == "none"@ {
        Some(ReactionType::NoReaction)
    } else if stored == "up_vote"@ {
        Some(ReactionType::UpVote)
    } else if stored == "down_vote"@ {
        Some(ReactionType::DownVote)
    } else if stored == "lmao"@ {
        Some(ReactionType::Lmao)
    } else {
        None
    }
}

impl ReactionType {
    pub fn as_stored(self) -> (out: &'static str)
        ensures
            out@ == reaction_name(self),
    {
        match self {
            ReactionType::NoReaction => "none",
            ReactionType::UpVote => "up_vote",
            ReactionType::DownVote => "down_vote",
            ReactionType::Lmao => "lmao",
        }
    }

    pub fn from_stored(stored: &str) -> (r: Option<Self>)
        ensures
            r == reaction_of(stored@),
    {
        if same(stored, "none") {
            Some(ReactionType::NoReaction)
        } else if same(stored, "up_vote") {
            Some(ReactionType::UpVote)
        } else if same(stored, "down_vote") {
            Some(ReactionType::DownVote)
        } else if same(stored, "lmao") {
            Some(ReactionType::Lmao)
        } else {
            None
        }
    }
}

/// A reaction is read back from the spelling that is stored for it, and only from that.
pub proof fn lemma_stored_reaction(reaction: ReactionType, stored: Seq<char>)
    ensures
        reaction_of(reaction_name(reaction)) == Some(reaction),
        reaction_of(stored) == Some(reaction) ==> stored == reaction_name(reaction),
{
    reveal_strlit("none");
    reveal_strlit("up_vote");
    reveal_strlit("down_vote");
    reveal_strlit("lmao");
    assert("none"@[0] == 'n' && "up_vote"@[0] == 'u' && "down_vote"@[0] == 'd' && "lmao"@[0]
        == 'l');
}

/// One stored reaction. A user may have more than one row.
#[derive(Debug, Clone, PartialEq, Eq)]
pub struct FeedbackReaction {
    pub id: String,
    pub chat_id: i64,
    pub log_id: String,
    pub user_id: i64,
    pub reaction_type: String,
    /// Unix milliseconds.
    pub created_at: i64,
    /// Unix milliseconds.
    pub updated_at: i64,
}

impl FeedbackReaction {
    /// The known reaction, or none where the stored spelling is unknown.
    pub fn reaction(&self) -> (r: Option<ReactionType>)
        ensures
            r == reaction_of(self.reaction_type@),
    {
        ReactionType::from_stored(self.reaction_type.as_str())
    }
}

/// The counters of the three reaction buttons.
#[derive(Debug, Clone, Copy, PartialEq, Eq, Structural)]
pub struct ReactionCounts {
    pub up_votes: usize,
    pub down_votes: usize,
    pub lmao: usize,
}

/// A message of a group that is about to be stored.
#[derive(Debug, Clone, PartialEq, Eq)]
pub struct NewTelegramChatHistory {
    pub chat_id: i64,
    pub chat_type: String,
    pub chat_title: String,
    pub message_id: i64,
    pub user_id: i64,
    pub username: String,
    pub full_name: String,
    pub text: String,
    pub replied_to_message_id: i64,
    pub replied_to_user_id: i64,
    pub replied_to_full_name: String,
    pub replied_to_username: String,
    pub replied_to_text: String,
    pub replied_to_chat_type: String,
    /// Unix milliseconds.
    pub chatted_at: i64,
}

/// What a message about to be stored says.
#[verifier::ext_equal]
pub struct NewHistoryModel {
    pub chat_id: i64,
    pub chat_type: Seq<char>,
    pub chat_title: Seq<char>,
    pub message_id: i64,
    pub user_id: i64,
    pub username: Seq<char>,
    pub full_name: Seq<char>,
    pub text: Seq<char>,
    pub replied_to_message_id: i64,
    pub replied_to_user_id: i64,
    pub replied_to_full_name: Seq<char>,
    pub replied_to_username: Seq<char>,
    pub replied_to_text: Seq<char>,
    pub replied_to_chat_type: Seq<char>,
    pub chatted_at: i64,
}

impl View for NewTelegramChatHistory {
    type V = NewHistoryModel;

    open spec fn view(&self) -> NewHistoryModel {
        NewHistoryModel {
            chat_id: self.chat_id,
            chat_type: self.chat_type@,
            chat_title: self.chat_title@,
            message_id: self.message_id,
            user_id: self.user_id,
            username: self.username@,
            full_name: self.full_name@,
            text: self.text@,
            replied_to_message_id: self.replied_to_message_id,
            replied_to_user_id: self.replied_to_user_id,
            replied_to_full_name: self.replied_to_full_name@,
            replied_to_username: self.replied_to_username@,
            replied_to_text: self.replied_to_text@,
            replied_to_chat_type: self.replied_to_chat_type@,
            chatted_at: self.chatted_at,
        }
    }
}

/// One message of a group, with what it replies to. Zero and empty values stand for
/// what is missing.
#[derive(Debug, Clone, PartialEq, Eq)]
pub struct TelegramChatHistory {
    pub id: i64,
    pub chat_id: i64,
    pub chat_type: String,
    pub chat_title: String,
    pub message_id: i64,
    pub user_id: i64,
    pub username: String,
    pub full_name: String,
    pub text: String,
    pub replied_to_message_id: i64,
    pub replied_to_user_id: i64,
    pub replied_to_full_name: String,
    pub replied_to_username: String,
    pub replied_to_text: String,
    pub replied_to_chat_type: String,
    /// Unix milliseconds.
    pub chatted_at: i64,
    pub embedded: bool,
    pub from_platform: i64,
    pub created_at: i64,
    pub updated_at: i64,
}

} // verus!
