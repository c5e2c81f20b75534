//! The commands that every bot has: start, help and cancel.

use vstd::prelude::*;

use crate::bot::commands::CONFIGURE_DESCRIPTION;
use crate::bot::handlers::recap_manual::{self, escape_html};
use crate::config::{self, Locale};
use crate::reply::Reply;
use crate::text::{self, joined2, joined3, same};

verus! {

pub const CANCELLED: &'static str =
    "好的，已经帮你把消息清理掉了，如果需要总结转发的消息，可以再次发送 /recap_forwarded_start 开始操作。";

pub const CANCEL_ERROR: &'static str = "发生了一些错误，请稍后再试";

/// The key of what is said where there was nothing to cancel.
pub const NOTHING_TO_CANCEL_KEY: &'static str = "system.cancel";

// ---------------------------------------------------------------------------
// Suppression
// ---------------------------------------------------------------------------

/// What is read of the first entity of a message.
#[derive(Debug, PartialEq, Eq)]
pub struct FirstEntity {
    pub is_bot_command: bool,
    pub start: usize,
    pub text: String,
}

/// The command that a message begins with, as it is written, without its slash.
pub open spec fn written_command(entity: Option<FirstEntity>) -> Option<Seq<char>> {
    match entity {
        Some(found) => if found.is_bot_command && found.start == 0 && "/"@.is_prefix_of(
            found.text@,
        ) {
            Some(found.text@.skip(1))
        } else {
            None
        },
        None => None,
    }
}

/// The command that a message begins with, as it is written, without its slash.
pub fn command_with_at(entity: &Option<FirstEntity>) -> (r: Option<String>)
    ensures
        text::viewed(r) == written_command(*entity),
{
    match entity {
        Some(found) => {
            if found.is_bot_command && found.start == 0 && text::starts_with(
                found.text.as_str(),
                "/",
            ) {
                proof {
                    reveal_strlit("/");
                }
                let rest: String = text::suffix_from(found.text.as_str(), 1);
                assert(rest@ =~= found.text@.skip(1));
                Some(rest)
            } else {
                None
            }
        },
        None => None,
    }
}

/// A command is left alone where the bot administers a group and the command does not
/// name it.
pub open spec fn suppressed(
    is_administrator: bool,
    in_group: bool,
    command: Option<Seq<char>>,
    named: Seq<Seq<char>>,
) -> bool {
    is_administrator && in_group && match command {
        Some(written) => !named.contains(written),
        None => true,
    }
}

/// Whether a command is left alone, where `named` are the spellings that name the bot.
pub fn group_command_suppressed(
    is_administrator: bool,
    in_group: bool,
    command: &Option<String>,
    named: &Vec<String>,
) -> (r: bool)
    ensures
        r == suppressed(
            is_administrator,
            in_group,
            text::viewed(*command),
            text::texts(named@),
        ),
{
    if !is_administrator || !in_group {
        return false;
    }
    match command {
        None => true,
        Some(written) => {
            let ghost all = text::texts(named@);
            let mut i: usize = 0;
            while i < named.len()
                invariant
                    i <= named.len(),
                    is_administrator && in_group,
                    text::viewed(*command) == Some(written@),
                    all == text::texts(named@),
                    forall|k: int| 0 <= k < i ==> #[trigger] all[k] != written@,
                decreases named.len() - i,
            {
                assert(all[i as int] == named@[i as int]@);
                if same(named[i].as_str(), written.as_str()) {
                    assert(all.contains(written@));
                    return false;
                }
                i = i + 1;
            }
            assert(!all.contains(written@));
            true
        },
    }
}

/// The spelling of a command that names the bot.
pub fn named_command(command: &str, username: &str) -> (out: String)
    ensures
        out@ == command@ + "@"@ + username@,
{
    joined3(command, "@", username)
}

/// The spellings that start, help and cancel listen to where a group is administered.
pub fn start_spellings(username: &str) -> (out: Vec<String>)
    ensures
        text::texts(out@) == seq!["start"@ + "@"@ + username@],
{
    let out: Vec<String> = vec![named_command("start", username)];
    assert(text::texts(out@) =~= seq!["start"@ + "@"@ + username@]);
    out
}

pub fn help_spellings(username: &str) -> (out: Vec<String>)
    ensures
        text::texts(out@) == seq!["help"@ + "@"@ + username@, "start"@ + "@"@ + username@],
{
    let out: Vec<String> = vec![named_command("help", username), named_command("start", username)];
    assert(text::texts(out@) =~= seq!["help"@ + "@"@ + username@, "start"@ + "@"@ + username@]);
    out
}

pub fn cancel_spellings(username: &str) -> (out: Vec<String>)
    ensures
        text::texts(out@) == seq!["cancel"@ + "@"@ + username@],
{
    let out: Vec<String> = vec![named_command("cancel", username)];
    assert(text::texts(out@) =~= seq!["cancel"@ + "@"@ + username@]);
    out
}

// ---------------------------------------------------------------------------
// Starting
// ---------------------------------------------------------------------------

/// What is to be done for a command to start or to help.
#[derive(Debug, Clone, Copy, PartialEq, Eq, Structural)]
pub enum StartStep {
    /// Ask whether the bot administers the group, with the spellings of start.
    CheckStartGate,
    /// Go on with what the arguments stand for.
    Continue,
    /// Ask whether the bot administers the group, with the spellings of help.
    CheckHelpGate,
    SendHelp,
    Done,
}

/// What is to be done for a command to help: a gate that could not be asked stops
/// nothing.
pub open spec fn help_step(suppressed: Reply<bool>) -> StartStep {
    match suppressed {
        Reply::Pending => StartStep::CheckHelpGate,
        Reply::Got(true) => StartStep::Done,
        _ => StartStep::SendHelp,
    }
}

/// What is to be done for a command to help.
pub fn handle_help_step(suppressed: &Reply<bool>) -> (step: StartStep)
    ensures
        step == help_step(*suppressed),
{
    match suppressed {
        Reply::Pending => StartStep::CheckHelpGate,
        Reply::Failed => StartStep::SendHelp,
        Reply::Got(left_alone) => if *left_alone {
            StartStep::Done
        } else {
            StartStep::SendHelp
        },
    }
}

/// What is to be done for a command to start: where its arguments stand for nothing, it is
/// a command to help.
pub open spec fn start_step(
    suppressed: Reply<bool>,
    continued: Reply<bool>,
    help_suppressed: Reply<bool>,
) -> StartStep {
    match suppressed {
        Reply::Pending => StartStep::CheckStartGate,
        Reply::Got(true) => StartStep::Done,
        _ => match continued {
            Reply::Pending => StartStep::Continue,
            Reply::Failed => StartStep::Done,
            Reply::Got(true) => StartStep::Done,
            Reply::Got(false) => help_step(help_suppressed),
        },
    }
}

/// What is to be done for a command to start, where `continued` says whether its arguments
/// stood for something.
pub fn handle_start_step(
    suppressed: &Reply<bool>,
    continued: &Reply<bool>,
    help_suppressed: &Reply<bool>,
) -> (step: StartStep)
    ensures
        step == start_step(*suppressed, *continued, *help_suppressed),
{
    match suppressed {
        Reply::Pending => {
            return StartStep::CheckStartGate;
        },
        Reply::Failed => {},
        Reply::Got(left_alone) => {
            if *left_alone {
                return StartStep::Done;
            }
        },
    }
    match continued {
        Reply::Pending => StartStep::Continue,
        Reply::Failed => StartStep::Done,
        Reply::Got(handled) => if *handled {
            StartStep::Done
        } else {
            handle_help_step(help_suppressed)
        },
    }
}

/// The language of a reply: the one that the sender uses, where it is known, or else the
/// one that is configured.
pub open spec fn reply_locale(code: Option<Seq<char>>, configured: Locale) -> Locale {
    match code {
        Some(found) => if found == "en"@ || found == "zh-Hans"@ || found == "zh-Hant"@ {
            config::locale_of(Some(found))
        } else {
            configured
        },
        None => configured,
    }
}

/// The language of a reply to a sender who uses the language `code`.
pub fn locale_for_message(code: Option<&str>, configured: Locale) -> (r: Locale)
    ensures
        r == reply_locale(
            match code {
                Some(found) => Some(found@),
                None => None,
            },
            configured,
        ),
{
    match code {
        Some(found) => {
            if same(found, "en") || same(found, "zh-Hans") || same(found, "zh-Hant") {
                Locale::from_value(Some(found))
            } else {
                configured
            }
        },
        None => configured,
    }
}

// ---------------------------------------------------------------------------
// Cancelling
// ---------------------------------------------------------------------------

/// What is known of a command to cancel so far.
pub struct Cancellation {
    /// Whether the command is to be left alone.
    pub suppressed: Reply<bool>,
    pub user_id: Option<i64>,
    pub store_available: bool,
    /// Whether there was a session to cancel.
    pub cancelled: Reply<bool>,
}

/// What is to be done for a command to cancel.
#[derive(Debug, Clone, Copy, PartialEq, Eq)]
pub enum CancelStep {
    /// Ask whether the bot administers the group.
    CheckGate,
    Cancel { user_id: i64 },
    /// Say this, in reply to the command or not, and end.
    Say { text: &'static str, reply: bool },
    /// Reply with the text under this key, and end.
    SayLocalized { key: &'static str },
    Done,
}

#[verifier::ext_equal]
pub enum CancelModel {
    CheckGate,
    Cancel(i64),
    Say(Seq<char>, bool),
    SayLocalized(Seq<char>),
    Done,
}

impl View for CancelStep {
    type V = CancelModel;

    open spec fn view(&self) -> CancelModel {
        match self {
            CancelStep::CheckGate => CancelModel::CheckGate,
            CancelStep::Cancel { user_id } => CancelModel::Cancel(*user_id),
            CancelStep::Say { text, reply } => CancelModel::Say(text@, *reply),
            CancelStep::SayLocalized { key } => CancelModel::SayLocalized(key@),
            CancelStep::Done => CancelModel::Done,
        }
    }
}

/// What is to be done for a command to cancel: a gate that could not be asked stops
/// nothing, but is reported where there was nothing to cancel.
pub open spec fn cancel_step(cancellation: Cancellation) -> CancelModel {
    match cancellation.suppressed {
        Reply::Pending => CancelModel::CheckGate,
        Reply::Got(true) => CancelModel::Done,
        _ => match cancellation.user_id {
            None => CancelModel::Say(CANCEL_ERROR@, false),
            Some(user_id) => if !cancellation.store_available {
                CancelModel::Say(CANCEL_ERROR@, false)
            } else {
                match cancellation.cancelled {
                    Reply::Pending => CancelModel::Cancel(user_id),
                    Reply::Failed => CancelModel::Say(CANCEL_ERROR@, false),
                    Reply::Got(true) => CancelModel::Say(CANCELLED@, true),
                    Reply::Got(false) => if cancellation.suppressed is Failed {
                        CancelModel::Say(CANCEL_ERROR@, false)
                    } else {
                        CancelModel::SayLocalized(NOTHING_TO_CANCEL_KEY@)
                    },
                }
            },
        },
    }
}

/// What is to be done for a command to cancel.
pub fn handle_cancel_step(cancellation: &Cancellation) -> (step: CancelStep)
    ensures
        step@ == cancel_step(*cancellation),
{
    let gate_failed: bool = match &cancellation.suppressed {
        Reply::Pending => {
            return CancelStep::CheckGate;
        },
        Reply::Failed => true,
        Reply::Got(suppressed) => {
            if *suppressed {
                return CancelStep::Done;
            }
            false
        },
    };
    match cancellation.user_id {
        None => CancelStep::Say { text: CANCEL_ERROR, reply: false },
        Some(user_id) => {
            if !cancellation.store_available {
                return CancelStep::Say { text: CANCEL_ERROR, reply: false };
            }
            match &cancellation.cancelled {
                Reply::Pending => CancelStep::Cancel { user_id },
                Reply::Failed => CancelStep::Say { text: CANCEL_ERROR, reply: false },
                Reply::Got(found) => if *found {
                    CancelStep::Say { text: CANCELLED, reply: true }
                } else if gate_failed {
                    CancelStep::Say { text: CANCEL_ERROR, reply: false }
                } else {
                    CancelStep::SayLocalized { key: NOTHING_TO_CANCEL_KEY }
                },
            }
        },
    }
}

// ---------------------------------------------------------------------------
// Help
// ---------------------------------------------------------------------------

/// The keys of the texts that the help is made of.
pub const BASIC_GROUP_NAME_KEY: &'static str = "system.commands.groups.basic.name";

pub const HELP_KEY: &'static str = "system.commands.groups.basic.commands.help.help";

pub const CANCEL_KEY: &'static str = "system.commands.groups.basic.commands.cancel.help";

pub const START_KEY: &'static str = "system.commands.groups.basic.commands.start.help";

/// The key of the text that the list of commands goes into, as `Commands`.
pub const HELP_MESSAGE_KEY: &'static str = "system.commands.groups.basic.commands.help.message";

/// The texts of the help in the language of the reader. The recap commands are always
/// described in Chinese.
pub struct HelpTexts {
    pub basic_name: String,
    pub help: String,
    pub cancel: String,
    pub start: String,
}

/// One command with its description.
pub open spec fn help_line(command: Seq<char>, username: Seq<char>, help: Seq<char>) -> Seq<char> {
    if help.len() == 0 {
        "/"@ + command + "@"@ + username
    } else {
        "/"@ + command + "@"@ + username + " - "@ + help
    }
}

/// A group of commands under its name, if it has one.
pub open spec fn help_block(name: Seq<char>, lines: Seq<Seq<char>>) -> Seq<char> {
    if name.len() == 0 {
        text::join_spec(lines, "\n"@)
    } else {
        "<b>"@ + recap_manual::attribute_escaped(name) + "</b>\n\n"@ + text::join_spec(lines, "\n"@)
    }
}

/// The lines of the basic commands.
pub open spec fn basic_lines(texts: HelpTexts, username: Seq<char>) -> Seq<Seq<char>> {
    seq![
        help_line("help"@, username, texts.help@),
        help_line("cancel"@, username, texts.cancel@),
        help_line("start"@, username, texts.start@),
    ]
}

/// The lines of the recap commands.
pub open spec fn recap_lines(username: Seq<char>) -> Seq<Seq<char>> {
    seq![
        help_line("recap"@, username, "总结过去的聊天记录并生成回顾快报"@),
        help_line("configure_recap"@, username, CONFIGURE_DESCRIPTION@),
        help_line(
            "recap_forwarded_start"@,
            username,
            "使 Bot 接收在私聊中转发给 Bot 的消息，并在发送 /recap_forwarded 后开始总结"@,
        ),
        help_line(
            "recap_forwarded"@,
            username,
            "使 Bot 停止接收在私聊中转发给 Bot 的消息，对已经转发过的消息进行总结"@,
        ),
        help_line("subscribe_recap"@, username, "订阅当前群组的定时聊天回顾"@),
        help_line("unsubscribe_recap"@, username, "取消订阅当前群组的定时聊天回顾"@),
    ]
}

/// The list of commands.
pub open spec fn help_commands(texts: HelpTexts, username: Seq<char>) -> Seq<char> {
    help_block(texts.basic_name@, basic_lines(texts, username)) + "\n\n"@ + help_block(
        "聊天回顾"@,
        recap_lines(username),
    )
}

fn line(command: &str, username: &str, help: &str) -> (out: String)
    ensures
        out@ == help_line(command@, username@, help@),
{
    let named: String = named_command(command, username);
    let shown: String = joined2("/", named.as_str());
    assert(shown@ =~= "/"@ + command@ + "@"@ + username@);
    if help.is_empty() {
        shown
    } else {
        joined3(shown.as_str(), " - ", help)
    }
}

fn block(name: &str, lines: &Vec<String>) -> (out: String)
    ensures
        out@ == help_block(name@, text::texts(lines@)),
{
    let listed: String = text::join(lines, "\n");
    if name.is_empty() {
        listed
    } else {
        let shown: String = escape_html(name);
        let head: String = joined3("<b>", shown.as_str(), "</b>\n\n");
        joined2(head.as_str(), listed.as_str())
    }
}

/// The list of commands that goes into the help message.
pub fn build_help_commands(texts: &HelpTexts, bot_username: &str) -> (out: String)
    ensures
        out@ == help_commands(*texts, bot_username@),
{
    let basic: Vec<String> = vec![
        line("help", bot_username, texts.help.as_str()),
        line("cancel", bot_username, texts.cancel.as_str()),
        line("start", bot_username, texts.start.as_str()),
    ];
    assert(text::texts(basic@) =~= basic_lines(*texts, bot_username@));
    let recap: Vec<String> = vec![
        line("recap", bot_username, "总结过去的聊天记录并生成回顾快报"),
        line("configure_recap", bot_username, CONFIGURE_DESCRIPTION),
        line(
            "recap_forwarded_start",
            bot_username,
            "使 Bot 接收在私聊中转发给 Bot 的消息，并在发送 /recap_forwarded 后开始总结",
        ),
        line(
            "recap_forwarded",
            bot_username,
            "使 Bot 停止接收在私聊中转发给 Bot 的消息，对已经转发过的消息进行总结",
        ),
        line("subscribe_recap", bot_username, "订阅当前群组的定时聊天回顾"),
        line("unsubscribe_recap", bot_username, "取消订阅当前群组的定时聊天回顾"),
    ];
    assert(text::texts(recap@) =~= recap_lines(bot_username@));
    let first: String = block(texts.basic_name.as_str(), &basic);
    let second: String = block("聊天回顾", &recap);
    joined3(first.as_str(), "\n\n", second.as_str())
}

} // verus!
