//! Recap state on a Redis server: which commands are sent, and what their replies mean.

use vstd::prelude::*;

use crate::numeral::{self, format_i64, parse_i64};
use crate::redis::keys::{self, StartContextDomain};
use crate::redis::recap_state::{self, DeleteLaterDrain, EntryModel, ManualRecapRateResult, Stored};
use crate::redis::recap_store;
use crate::text::{self, same};

verus! {

// ---------------------------------------------------------------------------
// Commands
// ---------------------------------------------------------------------------

/// One command.
#[derive(Debug, PartialEq, Eq)]
pub enum RedisCommand {
    Get { key: String },
    Ttl { key: String },
    Store { key: String, value: String, ttl_seconds: i64 },
    Del { keys: Vec<String> },
    Expire { key: String, ttl_seconds: i64 },
    Zadd { key: String, score: i64, member: String },
    Zrem { key: String, member: String },
    ZrevRange { key: String },
    ZrangeByScore { key: String, low: i64, high: i64 },
    ZpopMin { key: String },
    Lpush { key: String, member: String },
    Lrange { key: String },
}

#[verifier::ext_equal]
pub enum CommandModel {
    Get { key: Seq<char> },
    Ttl { key: Seq<char> },
    Store { key: Seq<char>, value: Seq<char>, ttl_seconds: i64 },
    Del { keys: Seq<Seq<char>> },
    Expire { key: Seq<char>, ttl_seconds: i64 },
    Zadd { key: Seq<char>, score: i64, member: Seq<char> },
    Zrem { key: Seq<char>, member: Seq<char> },
    ZrevRange { key: Seq<char> },
    ZrangeByScore { key: Seq<char>, low: i64, high: i64 },
    ZpopMin { key: Seq<char> },
    Lpush { key: Seq<char>, member: Seq<char> },
    Lrange { key: Seq<char> },
}

impl View for RedisCommand {
    type V = CommandModel;

    open spec fn view(&self) -> CommandModel {
        match *self {
            RedisCommand::Get { key } => CommandModel::Get { key: key@ },
            RedisCommand::Ttl { key } => CommandModel::Ttl { key: key@ },
            RedisCommand::Store { key, value, ttl_seconds } => CommandModel::Store {
                key: key@,
                value: value@,
                ttl_seconds,
            },
            RedisCommand::Del { keys } => CommandModel::Del { keys: text::texts(keys@) },
            RedisCommand::Expire { key, ttl_seconds } => CommandModel::Expire {
                key: key@,
                ttl_seconds,
            },
            RedisCommand::Zadd { key, score, member } => CommandModel::Zadd {
                key: key@,
                score,
                member: member@,
            },
            RedisCommand::Zrem { key, member } => CommandModel::Zrem {
                key: key@,
                member: member@,
            },
            RedisCommand::ZrevRange { key } => CommandModel::ZrevRange { key: key@ },
            RedisCommand::ZrangeByScore { key, low, high } => CommandModel::ZrangeByScore {
                key: key@,
                low,
                high,
            },
            RedisCommand::ZpopMin { key } => CommandModel::ZpopMin { key: key@ },
            RedisCommand::Lpush { key, member } => CommandModel::Lpush {
                key: key@,
                member: member@,
            },
            RedisCommand::Lrange { key } => CommandModel::Lrange { key: key@ },
        }
    }
}

pub open spec fn script(commands: Seq<RedisCommand>) -> Seq<CommandModel> {
    Seq::new(commands.len(), |i: int| commands[i]@)
}

/// The words of a command as they are sent.
pub open spec fn words_of(command: CommandModel) -> Seq<Seq<char>> {
    match command {
        CommandModel::Get { key } => seq!["GET"@, key],
        CommandModel::Ttl { key } => seq!["TTL"@, key],
        CommandModel::Store { key, value, ttl_seconds } => seq![
            "SET"@,
            key,
            value,
            "EX"@,
            numeral::decimal(ttl_seconds as int),
        ],
        CommandModel::Del { keys } => seq!["DEL"@] + keys,
        CommandModel::Expire { key, ttl_seconds } => seq![
            "EXPIRE"@,
            key,
            numeral::decimal(ttl_seconds as int),
        ],
        CommandModel::Zadd { key, score, member } => seq![
            "ZADD"@,
            key,
            numeral::decimal(score as int),
            member,
        ],
        CommandModel::Zrem { key, member } => seq!["ZREM"@, key, member],
        CommandModel::ZrevRange { key } => seq!["ZREVRANGE"@, key, "0"@, "-1"@],
        CommandModel::ZrangeByScore { key, low, high } => seq![
            "ZRANGEBYSCORE"@,
            key,
            numeral::decimal(low as int),
            numeral::decimal(high as int),
        ],
        CommandModel::ZpopMin { key } => seq!["ZPOPMIN"@, key, "1"@],
        CommandModel::Lpush { key, member } => seq!["LPUSH"@, key, member],
        CommandModel::Lrange { key } => seq!["LRANGE"@, key, "0"@, "-1"@],
    }
}

fn words3(a: &str, b: &str, c: &str) -> (out: Vec<String>)
    ensures
        text::texts(out@) == seq![a@, b@, c@],
{
    let mut out: Vec<String> = words2(a, b);
    let ghost before = text::texts(out@);
    out.push(c.to_owned());
    assert(text::texts(out@) =~= before.push(c@));
    assert(text::texts(out@) =~= seq![a@, b@, c@]);
    out
}

fn words2(a: &str, b: &str) -> (out: Vec<String>)
    ensures
        text::texts(out@) == seq![a@, b@],
{
    let mut out: Vec<String> = Vec::new();
    out.push(a.to_owned());
    out.push(b.to_owned());
    assert(text::texts(out@) =~= seq![a@, b@]);
    out
}

fn words4(a: &str, b: &str, c: &str, d: &str) -> (out: Vec<String>)
    ensures
        text::texts(out@) == seq![a@, b@, c@, d@],
{
    let mut out: Vec<String> = words3(a, b, c);
    let ghost before = text::texts(out@);
    out.push(d.to_owned());
    assert(text::texts(out@) =~= before.push(d@));
    assert(text::texts(out@) =~= seq![a@, b@, c@, d@]);
    out
}

impl RedisCommand {
    /// The words of the command as they are sent.
    pub fn words(&self) -> (out: Vec<String>)
        ensures
            text::texts(out@) == words_of(self@),
    {
        match self {
            RedisCommand::Get { key } => words2("GET", key.as_str()),
            RedisCommand::Ttl { key } => words2("TTL", key.as_str()),
            RedisCommand::Store { key, value, ttl_seconds } => {
                let ttl: String = format_i64(*ttl_seconds);
                let mut out: Vec<String> = words4("SET", key.as_str(), value.as_str(), "EX");
                let ghost before = text::texts(out@);
                out.push(ttl);
                assert(text::texts(out@) =~= before.push(ttl@));
                assert(text::texts(out@) =~= words_of(self@));
                out
            },
            RedisCommand::Del { keys } => {
                let mut out: Vec<String> = Vec::new();
                out.push("DEL".to_owned());
                let ghost names = text::texts(keys@);
                assert(text::texts(out@) =~= seq!["DEL"@] + names.take(0));
                let mut i: usize = 0;
                while i < keys.len()
                    invariant
                        i <= keys.len(),
                        names == text::texts(keys@),
                        text::texts(out@) == seq!["DEL"@] + names.take(i as int),
                    decreases keys.len() - i,
                {
                    let ghost before = text::texts(out@);
                    out.push(keys[i].clone());
                    assert(text::texts(out@) =~= before.push(names[i as int]));
                    i = i + 1;
                    assert(names.take(i as int) =~= names.take(i - 1).push(names[i - 1]));
                    assert(text::texts(out@) =~= seq!["DEL"@] + names.take(i as int));
                }
                assert(names.take(i as int) =~= names);
                out
            },
            RedisCommand::Expire { key, ttl_seconds } => {
                let ttl: String = format_i64(*ttl_seconds);
                words3("EXPIRE", key.as_str(), ttl.as_str())
            },
            RedisCommand::Zadd { key, score, member } => {
                let number: String = format_i64(*score);
                words4("ZADD", key.as_str(), number.as_str(), member.as_str())
            },
            RedisCommand::Zrem { key, member } => words3("ZREM", key.as_str(), member.as_str()),
            RedisCommand::ZrevRange { key } => words4("ZREVRANGE", key.as_str(), "0", "-1"),
            RedisCommand::ZrangeByScore { key, low, high } => {
                let from: String = format_i64(*low);
                let to: String = format_i64(*high);
                words4("ZRANGEBYSCORE", key.as_str(), from.as_str(), to.as_str())
            },
            RedisCommand::ZpopMin { key } => words3("ZPOPMIN", key.as_str(), "1"),
            RedisCommand::Lpush { key, member } => words3("LPUSH", key.as_str(), member.as_str()),
            RedisCommand::Lrange { key } => words4("LRANGE", key.as_str(), "0", "-1"),
        }
    }
}

// ---------------------------------------------------------------------------
// Callbacks and start contexts
// ---------------------------------------------------------------------------

/// Store a callback payload; gives the command and the wire value.
pub fn put_callback(route: &str, payload_json: &str) -> (r: (RedisCommand, String))
    ensures
        r.0@ == (CommandModel::Store {
            key: keys::payload_key(route@, keys::wire_hash(payload_json@)),
            value: payload_json@,
            ttl_seconds: keys::CALLBACK_PAYLOAD_TTL_SECONDS,
        }),
        r.1@ == keys::wire_value(route@, payload_json@),
{
    let action_hash: String = keys::callback_action_hash(payload_json);
    (
        RedisCommand::Store {
            key: keys::callback_payload_key(route, action_hash.as_str()),
            value: payload_json.to_owned(),
            ttl_seconds: keys::CALLBACK_PAYLOAD_TTL_SECONDS,
        },
        keys::callback_wire_value(route, payload_json),
    )
}

pub fn get_callback(route: &str, action_hash: &str) -> (command: RedisCommand)
    ensures
        command@ == (CommandModel::Get { key: keys::payload_key(route@, action_hash@) }),
{
    RedisCommand::Get { key: keys::callback_payload_key(route, action_hash) }
}

pub fn put_start_context(domain: StartContextDomain, token: &str, json: &str) -> (command:
    RedisCommand)
    ensures
        command@ == (CommandModel::Store {
            key: keys::context_key(domain, token@),
            value: json@,
            ttl_seconds: keys::START_CONTEXT_TTL_SECONDS,
        }),
{
    RedisCommand::Store {
        key: domain.key(token),
        value: json.to_owned(),
        ttl_seconds: keys::START_CONTEXT_TTL_SECONDS,
    }
}

pub fn get_start_context(domain: StartContextDomain, token: &str) -> (command: RedisCommand)
    ensures
        command@ == (CommandModel::Get { key: keys::context_key(domain, token@) }),
{
    RedisCommand::Get { key: domain.key(token) }
}

/// The remaining lifetime that a `TTL` reply stands for.
pub fn remaining_ttl(reply: i64) -> (r: Option<i64>)
    ensures
        r == if reply >= 0 {
            Some(reply)
        } else {
            None
        },
{
    if reply >= 0 {
        Some(reply)
    } else {
        None
    }
}

// ---------------------------------------------------------------------------
// The command limiter
// ---------------------------------------------------------------------------

/// What the command limiter does next.
#[derive(Debug, PartialEq, Eq)]
pub enum RateStep {
    /// Send the command and come back with its reply.
    Send(RedisCommand),
    /// Count the command, then report this result.
    Count(RedisCommand, ManualRecapRateResult),
    Report(ManualRecapRateResult),
    /// The counter does not hold an integer.
    CounterType,
}

pub enum RateStepModel {
    Send(CommandModel),
    Count(CommandModel, ManualRecapRateResult),
    Report(ManualRecapRateResult),
    CounterType,
}

impl View for RateStep {
    type V = RateStepModel;

    open spec fn view(&self) -> RateStepModel {
        match *self {
            RateStep::Send(command) => RateStepModel::Send(command@),
            RateStep::Count(command, result) => RateStepModel::Count(command@, result),
            RateStep::Report(result) => RateStepModel::Report(result),
            RateStep::CounterType => RateStepModel::CounterType,
        }
    }
}

/// The counter, then its lifetime, then the outcome: `counter` is the reply to the first
/// command and `ttl` that to the second, none before they are known.
pub open spec fn rate_step(
    chat_id: int,
    rate: i64,
    per_seconds: i64,
    counter: Option<Option<Seq<char>>>,
    ttl: Option<i64>,
) -> RateStepModel {
    let key = keys::rate_key(chat_id);
    if per_seconds <= 0 {
        RateStepModel::Report(
            ManualRecapRateResult { counted_rate: 0, ttl_seconds: 0, allowed: true },
        )
    } else {
        match counter {
            None => RateStepModel::Send(CommandModel::Get { key }),
            Some(reply) => {
                let counted: Option<int> = match reply {
                    None => Some(0),
                    Some(value) => numeral::parsed_within(
                        value,
                        i64::MIN as int,
                        i64::MAX as int,
                    ),
                };
                match counted {
                    None => RateStepModel::CounterType,
                    Some(n) => match ttl {
                        None => RateStepModel::Send(CommandModel::Ttl { key }),
                        Some(left) => if n >= rate {
                            RateStepModel::Report(
                                ManualRecapRateResult {
                                    counted_rate: n as i64,
                                    ttl_seconds: left,
                                    allowed: false,
                                },
                            )
                        } else {
                            RateStepModel::Count(
                                CommandModel::Store {
                                    key,
                                    value: numeral::decimal(n + 1),
                                    ttl_seconds: per_seconds,
                                },
                                ManualRecapRateResult {
                                    counted_rate: (n + 1) as i64,
                                    ttl_seconds: left,
                                    allowed: true,
                                },
                            )
                        },
                    },
                }
            },
        }
    }
}

/// The model of a `GET` reply that may not be known yet.
pub open spec fn counter_model(counter: Option<Option<String>>) -> Option<Option<Seq<char>>> {
    match counter {
        Some(reply) => Some(text::viewed(reply)),
        None => None,
    }
}

pub fn manual_recap_rate_step(
    chat_id: i64,
    rate: i64,
    per_seconds: i64,
    counter: Option<Option<String>>,
    ttl: Option<i64>,
) -> (step: RateStep)
    ensures
        step@ == rate_step(chat_id as int, rate, per_seconds, counter_model(counter), ttl),
{
    if per_seconds <= 0 {
        return RateStep::Report(
            ManualRecapRateResult { counted_rate: 0, ttl_seconds: 0, allowed: true },
        );
    }
    let key: String = keys::manual_recap_rate_key(chat_id);
    let counted: i64 = match counter {
        None => {
            return RateStep::Send(RedisCommand::Get { key });
        },
        Some(None) => 0,
        Some(Some(value)) => match parse_i64(value.as_str()) {
            Some(n) => n,
            None => {
                return RateStep::CounterType;
            },
        },
    };
    let left: i64 = match ttl {
        None => {
            return RateStep::Send(RedisCommand::Ttl { key });
        },
        Some(left) => left,
    };
    if counted >= rate {
        return RateStep::Report(
            ManualRecapRateResult { counted_rate: counted, ttl_seconds: left, allowed: false },
        );
    }
    let next: i64 = counted + 1;
    RateStep::Count(
        RedisCommand::Store { key, value: format_i64(next), ttl_seconds: per_seconds },
        ManualRecapRateResult { counted_rate: next, ttl_seconds: left, allowed: true },
    )
}

// ---------------------------------------------------------------------------
// Forwarded sessions
// ---------------------------------------------------------------------------

/// Whether the control key opens a session: only the literal `1` does.
pub fn is_session_open(control: &Option<String>) -> (r: bool)
    ensures
        r == (text::viewed(*control) == Some(keys::FORWARDED_CONTROL_ACTIVE_VALUE@)),
{
    match control {
        Some(value) => same(value.as_str(), keys::FORWARDED_CONTROL_ACTIVE_VALUE),
        None => false,
    }
}

pub open spec fn start_script(user_id: int, open: bool) -> Seq<CommandModel> {
    (if open {
        seq![CommandModel::Del { keys: seq![keys::batch_key(user_id)] }]
    } else {
        Seq::<CommandModel>::empty()
    }) + seq![
        CommandModel::Store {
            key: keys::control_key(user_id),
            value: keys::FORWARDED_CONTROL_ACTIVE_VALUE@,
            ttl_seconds: keys::FORWARDED_SESSION_TTL_SECONDS,
        },
    ]
}

/// Open a session: the batch of an open one is dropped first.
pub fn start_forwarded(user_id: i64, open: bool) -> (commands: Vec<RedisCommand>)
    ensures
        script(commands@) == start_script(user_id as int, open),
{
    let mut commands: Vec<RedisCommand> = Vec::new();
    if open {
        let mut dropped: Vec<String> = Vec::new();
        dropped.push(keys::forwarded_batch_key(user_id));
        assert(text::texts(dropped@) =~= seq![keys::batch_key(user_id as int)]);
        commands.push(RedisCommand::Del { keys: dropped });
    }
    commands.push(
        RedisCommand::Store {
            key: keys::forwarded_control_key(user_id),
            value: keys::FORWARDED_CONTROL_ACTIVE_VALUE.to_owned(),
            ttl_seconds: keys::FORWARDED_SESSION_TTL_SECONDS,
        },
    );
    assert(script(commands@) =~= start_script(user_id as int, open));
    commands
}

pub open spec fn append_script(user_id: int, score_ms: i64, json: Seq<char>) -> Seq<CommandModel> {
    seq![
        CommandModel::Zadd { key: keys::batch_key(user_id), score: score_ms, member: json },
        CommandModel::Expire {
            key: keys::control_key(user_id),
            ttl_seconds: keys::FORWARDED_SESSION_TTL_SECONDS,
        },
        CommandModel::Expire {
            key: keys::batch_key(user_id),
            ttl_seconds: keys::FORWARDED_SESSION_TTL_SECONDS,
        },
    ]
}

/// Append one message to the batch and keep the session alive.
pub fn append_forwarded(user_id: i64, score_ms: i64, json: &str) -> (commands: Vec<RedisCommand>)
    ensures
        script(commands@) == append_script(user_id as int, score_ms, json@),
{
    let mut commands: Vec<RedisCommand> = Vec::new();
    commands.push(
        RedisCommand::Zadd {
            key: keys::forwarded_batch_key(user_id),
            score: score_ms,
            member: json.to_owned(),
        },
    );
    commands.push(
        RedisCommand::Expire {
            key: keys::forwarded_control_key(user_id),
            ttl_seconds: keys::FORWARDED_SESSION_TTL_SECONDS,
        },
    );
    commands.push(
        RedisCommand::Expire {
            key: keys::forwarded_batch_key(user_id),
            ttl_seconds: keys::FORWARDED_SESSION_TTL_SECONDS,
        },
    );
    assert(script(commands@) =~= append_script(user_id as int, score_ms, json@));
    commands
}

/// Read the batch, highest score first.
pub fn forwarded_batch(user_id: i64) -> (command: RedisCommand)
    ensures
        command@ == (CommandModel::ZrevRange { key: keys::batch_key(user_id as int) }),
{
    RedisCommand::ZrevRange { key: keys::forwarded_batch_key(user_id) }
}

/// A batch that was read highest score first, in replay order.
pub fn replay_order(descending: &Vec<String>) -> (out: Vec<String>)
    ensures
        text::texts(out@) == text::texts(descending@).reverse(),
{
    let ghost wanted = text::texts(descending@).reverse();
    let mut out: Vec<String> = Vec::new();
    let mut left: usize = descending.len();
    while left > 0
        invariant
            left <= descending.len(),
            wanted == text::texts(descending@).reverse(),
            out.len() == descending.len() - left,
            forall|k: int| 0 <= k < out.len() ==> (#[trigger] out@[k])@ == wanted[k],
        decreases left,
    {
        left = left - 1;
        out.push(descending[left].clone());
    }
    assert(text::texts(out@) =~= wanted);
    out
}

pub open spec fn cancel_script(user_id: int, open: bool) -> Seq<CommandModel> {
    if open {
        seq![
            CommandModel::Del { keys: seq![keys::batch_key(user_id), keys::control_key(user_id)] },
        ]
    } else {
        Seq::empty()
    }
}

/// Cancel an open session; without one nothing is sent.
pub fn cancel_forwarded(user_id: i64, open: bool) -> (commands: Vec<RedisCommand>)
    ensures
        script(commands@) == cancel_script(user_id as int, open),
{
    let mut commands: Vec<RedisCommand> = Vec::new();
    if open {
        let dropped: Vec<String> = words2(
            keys::forwarded_batch_key(user_id).as_str(),
            keys::forwarded_control_key(user_id).as_str(),
        );
        commands.push(RedisCommand::Del { keys: dropped });
    }
    assert(script(commands@) =~= cancel_script(user_id as int, open));
    commands
}

// ---------------------------------------------------------------------------
// Messages to delete later
// ---------------------------------------------------------------------------

pub open spec fn push_script(user_id: i64, chat_id: i64, message_id: i32) -> Seq<CommandModel> {
    if recap_state::pushable(user_id, chat_id, message_id) {
        seq![
            CommandModel::Lpush {
                key: keys::later_key(user_id as int),
                member: keys::later_member(chat_id as int, message_id as int),
            },
            CommandModel::Expire {
                key: keys::later_key(user_id as int),
                ttl_seconds: keys::DELETE_LATER_TTL_SECONDS,
            },
        ]
    } else {
        Seq::empty()
    }
}

/// Remember a message to delete; one without identifiers is not remembered.
pub fn push_delete_later(user_id: i64, chat_id: i64, message_id: i32) -> (commands: Vec<
    RedisCommand,
>)
    ensures
        script(commands@) == push_script(user_id, chat_id, message_id),
{
    let mut commands: Vec<RedisCommand> = Vec::new();
    if recap_state::is_pushable_delete_later(user_id, chat_id, message_id) {
        commands.push(
            RedisCommand::Lpush {
                key: keys::delete_later_key(user_id),
                member: keys::delete_later_member(chat_id, message_id),
            },
        );
        commands.push(
            RedisCommand::Expire {
                key: keys::delete_later_key(user_id),
                ttl_seconds: keys::DELETE_LATER_TTL_SECONDS,
            },
        );
    }
    assert(script(commands@) =~= push_script(user_id, chat_id, message_id));
    commands
}

/// Read the messages to delete.
pub fn drain_delete_later(user_id: i64) -> (command: RedisCommand)
    ensures
        command@ == (CommandModel::Lrange { key: keys::later_key(user_id as int) }),
{
    RedisCommand::Lrange { key: keys::delete_later_key(user_id) }
}

/// What clears the list once it was read; an empty list is left alone.
pub fn clear_delete_later(user_id: i64, members: &Vec<String>) -> (r: Option<RedisCommand>)
    ensures
        match r {
            Some(command) => members@.len() > 0 && command@ == (CommandModel::Del {
                keys: seq![keys::later_key(user_id as int)],
            }),
            None => members@.len() == 0,
        },
{
    if members.len() == 0 {
        return None;
    }
    let mut dropped: Vec<String> = Vec::new();
    dropped.push(keys::delete_later_key(user_id));
    assert(text::texts(dropped@) =~= seq![keys::later_key(user_id as int)]);
    Some(RedisCommand::Del { keys: dropped })
}

/// The drained messages, kept even where the list could not be cleared.
pub fn finish_drain(members: &Vec<String>, delete_error: Option<String>) -> (r: DeleteLaterDrain)
    ensures
        r.messages@ == recap_state::named_messages(text::texts(members@), 0),
        r.delete_error == delete_error,
{
    DeleteLaterDrain {
        messages: recap_state::parse_delete_later_members(members),
        delete_error,
    }
}

// ---------------------------------------------------------------------------
// The automatic recap queue
// ---------------------------------------------------------------------------

pub fn auto_recap_zadd(member: &str, score_ms: i64) -> (command: RedisCommand)
    ensures
        command@ == (CommandModel::Zadd {
            key: keys::AUTO_RECAP_QUEUE_KEY@,
            score: score_ms,
            member: member@,
        }),
{
    RedisCommand::Zadd {
        key: keys::AUTO_RECAP_QUEUE_KEY.to_owned(),
        score: score_ms,
        member: member.to_owned(),
    }
}

pub fn auto_recap_zrem(member: &str) -> (command: RedisCommand)
    ensures
        command@ == (CommandModel::Zrem { key: keys::AUTO_RECAP_QUEUE_KEY@, member: member@ }),
{
    RedisCommand::Zrem { key: keys::AUTO_RECAP_QUEUE_KEY.to_owned(), member: member.to_owned() }
}

/// How often a member that was popped too early is put back.
pub const RESTORE_ATTEMPTS: usize = 100;

/// Milliseconds between two attempts.
pub const RESTORE_DELAY_MS: u64 = 10;

/// What taking a due member does next.
#[derive(Debug, PartialEq, Eq)]
pub enum PopStep {
    /// Send the command and come back with its reply.
    Send(RedisCommand),
    /// Put the member back; once that succeeds nothing is due.
    Restore(RedisCommand),
    /// Nothing is due.
    NothingDue,
    Due(String),
    /// The member could not be put back.
    Lost,
}

pub enum PopStepModel {
    Send(CommandModel),
    Restore(CommandModel),
    NothingDue,
    Due(Seq<char>),
    Lost,
}

impl View for PopStep {
    type V = PopStepModel;

    open spec fn view(&self) -> PopStepModel {
        match *self {
            PopStep::Send(command) => PopStepModel::Send(command@),
            PopStep::Restore(command) => PopStepModel::Restore(command@),
            PopStep::NothingDue => PopStepModel::NothingDue,
            PopStep::Due(member) => PopStepModel::Due(member@),
            PopStep::Lost => PopStepModel::Lost,
        }
    }
}

/// The popped member and its score.
pub open spec fn popped_model(popped: Option<Option<(String, i64)>>) -> Option<
    Option<(Seq<char>, i64)>,
> {
    match popped {
        Some(Some((member, score))) => Some(Some((member@, score))),
        Some(None) => Some(None),
        None => None,
    }
}

/// Look for due members, pop the lowest one, and put it back where it is not due after
/// all; `due` is how many are due and `popped` what was popped, none before known.
pub open spec fn pop_step(
    now_ms: i64,
    due: Option<nat>,
    popped: Option<Option<(Seq<char>, i64)>>,
    failed_restores: nat,
) -> PopStepModel {
    let key = keys::AUTO_RECAP_QUEUE_KEY@;
    match due {
        None => PopStepModel::Send(CommandModel::ZrangeByScore { key, low: 0, high: now_ms }),
        Some(count) => if count == 0 {
            PopStepModel::NothingDue
        } else {
            match popped {
                None => PopStepModel::Send(CommandModel::ZpopMin { key }),
                Some(None) => PopStepModel::NothingDue,
                Some(Some((member, score))) => if score <= now_ms {
                    PopStepModel::Due(member)
                } else if failed_restores < RESTORE_ATTEMPTS {
                    PopStepModel::Restore(CommandModel::Zadd { key, score, member })
                } else {
                    PopStepModel::Lost
                },
            }
        },
    }
}

pub fn auto_recap_pop_step(
    now_ms: i64,
    due: Option<usize>,
    popped: Option<Option<(String, i64)>>,
    failed_restores: usize,
) -> (step: PopStep)
    ensures
        step@ == pop_step(
            now_ms,
            match due {
                Some(count) => Some(count as nat),
                None => None,
            },
            popped_model(popped),
            failed_restores as nat,
        ),
{
    let key: String = keys::AUTO_RECAP_QUEUE_KEY.to_owned();
    match due {
        None => PopStep::Send(RedisCommand::ZrangeByScore { key, low: 0, high: now_ms }),
        Some(count) => {
            if count == 0 {
                return PopStep::NothingDue;
            }
            match popped {
                None => PopStep::Send(RedisCommand::ZpopMin { key }),
                Some(None) => PopStep::NothingDue,
                Some(Some((member, score))) => if score <= now_ms {
                    PopStep::Due(member)
                } else if failed_restores < RESTORE_ATTEMPTS {
                    PopStep::Restore(RedisCommand::Zadd { key, score, member })
                } else {
                    PopStep::Lost
                },
            }
        },
    }
}

// ---------------------------------------------------------------------------
// Both stores agree
// ---------------------------------------------------------------------------

/// What a writing command does to what is stored.
pub open spec fn applied(stored: Stored, now: i64, command: CommandModel) -> Stored {
    match command {
        CommandModel::Store { key, value, ttl_seconds } => recap_state::with_text(
            stored,
            now,
            key,
            value,
            ttl_seconds,
        ),
        CommandModel::Del { keys } => stored.remove_keys(keys.to_set()),
        CommandModel::Expire { key, ttl_seconds } => recap_state::refreshed(
            stored,
            now,
            key,
            ttl_seconds,
        ),
        CommandModel::Zadd { key, score, member } => recap_state::with_score(
            stored,
            key,
            member,
            score,
            if stored.contains_key(key) {
                stored[key].expires_at_ms
            } else {
                i64::MAX
            },
        ),
        CommandModel::Lpush { key, member } => {
            let pushed = recap_state::with_head(stored, now, key, member, 0)[key].value;
            stored.insert(
                key,
                EntryModel {
                    value: pushed,
                    expires_at_ms: if stored.contains_key(key) {
                        stored[key].expires_at_ms
                    } else {
                        i64::MAX
                    },
                },
            )
        },
        _ => stored,
    }
}

pub open spec fn applied_all(
    stored: Stored,
    now: i64,
    commands: Seq<CommandModel>,
    i: int,
) -> Stored
    decreases commands.len() - i,
{
    if i < 0 || i >= commands.len() {
        stored
    } else {
        applied_all(applied(stored, now, commands[i]), now, commands, i + 1)
    }
}

/// The commands for forwarded sessions and for messages to delete later leave behind what
/// the in-memory store leaves behind.
pub proof fn lemma_stores_agree(
    stored: Stored,
    now: i64,
    user_id: i64,
    chat_id: i64,
    message_id: i32,
    score_ms: i64,
    json: Seq<char>,
)
    ensures
        ({
            let current = recap_state::live(stored, now);
            let open = recap_state::session_open(current, user_id as int);
            &&& applied_all(current, now, start_script(user_id as int, open), 0)
                =~= recap_store::session_started(stored, now, user_id as int)
            &&& applied_all(current, now, cancel_script(user_id as int, open), 0)
                =~= recap_store::session_cancelled(stored, now, user_id as int)
            &&& applied_all(current, now, append_script(user_id as int, score_ms, json), 0)
                =~= recap_store::forwarded_appended(
                stored,
                now,
                user_id as int,
                score_ms,
                json,
            )
            &&& recap_state::pushable(user_id, chat_id, message_id) ==> applied_all(
                current,
                now,
                push_script(user_id, chat_id, message_id),
                0,
            ) =~= recap_store::later_pushed(stored, now, user_id, chat_id, message_id)
        }),
{
    reveal_with_fuel(applied_all, 4);
    let current = recap_state::live(stored, now);
    let batch = keys::batch_key(user_id as int);
    let control = keys::control_key(user_id as int);
    recap_store::lemma_session_keys_apart(user_id as int);
    assert(seq![batch][0] == batch);
    assert(current.remove_keys(seq![batch].to_set()) =~= current.remove(batch)) by {
        assert forall|key: Seq<char>| seq![batch].to_set().contains(key) <==> key == batch by {
            if key == batch {
                assert(seq![batch].contains(key));
            }
        }
    }
    assert(current.remove_keys(seq![batch, control].to_set()) =~= current.remove(batch).remove(
        control,
    )) by {
        assert forall|key: Seq<char>|
            seq![batch, control].to_set().contains(key) <==> key == batch || key == control by {
            if key == batch {
                assert(seq![batch, control][0] == key);
            }
            if key == control {
                assert(seq![batch, control][1] == key);
            }
        }
    }
}

} // verus!
