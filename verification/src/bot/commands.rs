//! The commands of the bot.

use vstd::prelude::*;

use crate::text::{self, same};

verus! {

/// What a user asks for.
#[derive(Debug, Clone, PartialEq, Eq)]
pub enum Command {
    /// Show the welcome message, or go on with what a link carries.
    Start(String),
    Help,
    Cancel,
    Recap,
    ConfigureRecap,
    RecapForwardedStart,
    RecapForwarded,
    SubscribeRecap,
    UnsubscribeRecap,
}

#[verifier::ext_equal]
pub enum CommandModel {
    Start(Seq<char>),
    Help,
    Cancel,
    Recap,
    ConfigureRecap,
    RecapForwardedStart,
    RecapForwarded,
    SubscribeRecap,
    UnsubscribeRecap,
}

impl View for Command {
    type V = CommandModel;

    open spec fn view(&self) -> CommandModel {
        match self {
            Command::Start(arguments) => CommandModel::Start(arguments@),
            Command::Help => CommandModel::Help,
            Command::Cancel => CommandModel::Cancel,
            Command::Recap => CommandModel::Recap,
            Command::ConfigureRecap => CommandModel::ConfigureRecap,
            Command::RecapForwardedStart => CommandModel::RecapForwardedStart,
            Command::RecapForwarded => CommandModel::RecapForwarded,
            Command::SubscribeRecap => CommandModel::SubscribeRecap,
            Command::UnsubscribeRecap => CommandModel::UnsubscribeRecap,
        }
    }
}

/// The command with a name and arguments.
pub open spec fn named_command(name: Seq<char>, arguments: Seq<char>) -> Option<CommandModel> {
    if name == "/start"@ {
        Some(CommandModel::Start(arguments))
    } else if name == "/help"@ {
        Some(CommandModel::Help)
    } else if name == "/cancel"@ {
        Some(CommandModel::Cancel)
    } else if name == "/recap"@ {
        Some(CommandModel::Recap)
    } else if name == "/configure_recap"@ {
        Some(CommandModel::ConfigureRecap)
    } else if name == "/recap_forwarded_start"@ {
        Some(CommandModel::RecapForwardedStart)
    } else if name == "/recap_forwarded"@ {
        Some(CommandModel::RecapForwarded)
    } else if name == "/subscribe_recap"@ {
        Some(CommandModel::SubscribeRecap)
    } else if name == "/unsubscribe_recap"@ {
        Some(CommandModel::UnsubscribeRecap)
    } else {
        None
    }
}

/// The first word of a text and what follows the space behind it.
pub open spec fn first_word(s: Seq<char>) -> (Seq<char>, Seq<char>) {
    match text::found(s, " "@) {
        Some(at) => (s.take(at), s.skip(at + 1)),
        None => (s, Seq::empty()),
    }
}

/// The command that a text gives to the bot with a name: a command that is addressed to
/// another bot is none.
pub open spec fn parsed_command(s: Seq<char>, bot_username: Seq<char>) -> Option<CommandModel> {
    let (word, arguments) = first_word(s);
    let parts = text::pieces(word, '@');
    if parts.len() > 1 && text::ascii_lower(parts[1]) != text::ascii_lower(bot_username) {
        None
    } else {
        named_command(parts[0], arguments)
    }
}

pub open spec fn command_model(command: Option<Command>) -> Option<CommandModel> {
    match command {
        Some(command) => Some(command@),
        None => None,
    }
}

fn command_named(name: &str, arguments: String) -> (r: Option<Command>)
    ensures
        command_model(r) == named_command(name@, arguments@),
{
    if same(name, "/start") {
        Some(Command::Start(arguments))
    } else if same(name, "/help") {
        Some(Command::Help)
    } else if same(name, "/cancel") {
        Some(Command::Cancel)
    } else if same(name, "/recap") {
        Some(Command::Recap)
    } else if same(name, "/configure_recap") {
        Some(Command::ConfigureRecap)
    } else if same(name, "/recap_forwarded_start") {
        Some(Command::RecapForwardedStart)
    } else if same(name, "/recap_forwarded") {
        Some(Command::RecapForwarded)
    } else if same(name, "/subscribe_recap") {
        Some(Command::SubscribeRecap)
    } else if same(name, "/unsubscribe_recap") {
        Some(Command::UnsubscribeRecap)
    } else {
        None
    }
}

/// The command that a text gives to the bot with a name.
pub fn parse_go_command(source: &str, bot_username: &str) -> (r: Option<Command>)
    ensures
        command_model(r) == parsed_command(source@, bot_username@),
{
    proof {
        reveal_strlit(" ");
    }
    let (word, arguments): (String, String) = match text::find(source, " ") {
        Some(at) => {
            let word: String = text::prefix_to(source, at);
            let arguments: String = text::suffix_from(source, at + 1);
            assert(word@ =~= source@.take(at as int));
            assert(arguments@ =~= source@.skip(at + 1));
            (word, arguments)
        },
        None => {
            let none: String = String::new();
            assert(none@ =~= Seq::<char>::empty());
            (source.to_owned(), none)
        },
    };
    let parts: Vec<String> = text::split(word.as_str(), '@');
    proof {
        text::lemma_some_piece(word@, '@', 0, 0);
    }
    assert(text::texts(parts@).len() == parts@.len());
    if parts.len() > 1 {
        assert(text::texts(parts@)[1] == parts@[1]@);
        let addressed: String = text::to_ascii_lower(parts[1].as_str());
        let own: String = text::to_ascii_lower(bot_username);
        if !same(addressed.as_str(), own.as_str()) {
            return None;
        }
    }
    assert(text::texts(parts@)[0] == parts@[0]@);
    command_named(parts[0].as_str(), arguments)
}

/// One entry of the command menu.
#[derive(Debug, Clone, Copy, PartialEq, Eq)]
pub struct MenuEntry {
    pub command: &'static str,
    pub description: &'static str,
}

/// The description of the configuration command.
pub const CONFIGURE_DESCRIPTION: &'static str =
    "配置聊天记录回顾（需要管理权限，<b>请在配置的时候尽量避免使用匿名用户身份或者其他群组的身份进行配置，可能会导致权限检查异常而配置失败。</b>）";

/// The entries of the command menu, in order.
pub open spec fn menu() -> Seq<(Seq<char>, Seq<char>)> {
    seq![
        ("start"@, "Begin interacting with the bot"@),
        ("help"@, "Obtain assistance"@),
        ("cancel"@, "Cancel any ongoing operations."@),
        ("recap"@, "总结过去的聊天记录并生成回顾快报"@),
        ("configure_recap"@, CONFIGURE_DESCRIPTION@),
        (
            "recap_forwarded_start"@,
            "使 Bot 接收在私聊中转发给 Bot 的消息，并在发送 /recap_forwarded 后开始总结"@,
        ),
        (
            "recap_forwarded"@,
            "使 Bot 停止接收在私聊中转发给 Bot 的消息，对已经转发过的消息进行总结"@,
        ),
        ("subscribe_recap"@, "订阅当前群组的定时聊天回顾"@),
        ("unsubscribe_recap"@, "取消订阅当前群组的定时聊天回顾"@),
    ]
}

/// The command menu.
pub fn menu_commands() -> (out: Vec<MenuEntry>)
    ensures
        Seq::new(out@.len(), |i: int| (out@[i].command@, out@[i].description@)) == menu(),
{
    vec![
        MenuEntry { command: "start", description: "Begin interacting with the bot" },
        MenuEntry { command: "help", description: "Obtain assistance" },
        MenuEntry { command: "cancel", description: "Cancel any ongoing operations." },
        MenuEntry { command: "recap", description: "总结过去的聊天记录并生成回顾快报" },
        MenuEntry { command: "configure_recap", description: CONFIGURE_DESCRIPTION },
        MenuEntry {
            command: "recap_forwarded_start",
            description:
                "使 Bot 接收在私聊中转发给 Bot 的消息，并在发送 /recap_forwarded 后开始总结",
        },
        MenuEntry {
            command: "recap_forwarded",
            description: "使 Bot 停止接收在私聊中转发给 Bot 的消息，对已经转发过的消息进行总结",
        },
        MenuEntry { command: "subscribe_recap", description: "订阅当前群组的定时聊天回顾" },
        MenuEntry { command: "unsubscribe_recap", description: "取消订阅当前群组的定时聊天回顾" },
    ]
}

} // verus!
