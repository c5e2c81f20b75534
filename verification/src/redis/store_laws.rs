//! What holds of the stored state: where things are kept and for how long, what a command
//! is on the wire, how requests are counted, and when a queued recap is due.

use vstd::prelude::*;

use crate::numeral;
use crate::redis::commands::{self, CommandModel, PopStepModel};
use crate::redis::keys::{self, StartContextDomain};
use crate::redis::recap_state::{self, Stored};
use crate::redis::recap_store;

verus! {

// ---------------------------------------------------------------------------
// Keys
// ---------------------------------------------------------------------------

/// Where the state of a user, a chat or a button is kept.
pub proof fn lemma_keys_by_owner(owner: int, route: Seq<char>, hash: Seq<char>)
    ensures
        keys::control_key(owner) == "recap/replay_from_private_message"@ + "/"@ + numeral::decimal(
            owner,
        ),
        keys::batch_key(owner) == "recap/replay_from_private_message"@ + "/"@ + numeral::decimal(
            owner,
        ) + "/batch"@,
        keys::later_key(owner) == "session/delete_later_messages_for_actor"@ + "/"@
            + numeral::decimal(owner),
        keys::rate_key(owner) == "rate_limit/manual_recap/command:/recap/group/Telegram"@ + "/"@
            + numeral::decimal(owner),
        keys::payload_key(route, hash) == "callback_query/button_data"@ + "/"@ + route + "/"@ + hash,
        keys::context_key(StartContextDomain::PrivateSubscription, hash)
            == "recap/private_subscription/start_command_context"@ + "/"@ + hash,
        keys::context_key(StartContextDomain::SubscribeRecap, hash)
            == "recap/subscribe_recap/start_command_context"@ + "/"@ + hash,
{
}

/// The state of different users and chats is kept apart.
pub proof fn lemma_owners_are_kept_apart(a: int, b: int)
    requires
        a != b,
    ensures
        keys::control_key(a) != keys::control_key(b),
        keys::batch_key(a) != keys::batch_key(b),
        keys::later_key(a) != keys::later_key(b),
        keys::rate_key(a) != keys::rate_key(b),
{
    let one = numeral::decimal(a);
    let other = numeral::decimal(b);
    if one == other {
        numeral::lemma_decimal_injective(a, b);
    }
    lemma_tails_apart("recap/replay_from_private_message"@ + "/"@, one, other, Seq::empty());
    lemma_tails_apart("recap/replay_from_private_message"@ + "/"@, one, other, "/batch"@);
    lemma_tails_apart("session/delete_later_messages_for_actor"@ + "/"@, one, other, Seq::empty());
    lemma_tails_apart(
        "rate_limit/manual_recap/command:/recap/group/Telegram"@ + "/"@,
        one,
        other,
        Seq::empty(),
    );
}

proof fn lemma_tails_apart(head: Seq<char>, a: Seq<char>, b: Seq<char>, tail: Seq<char>)
    requires
        a != b,
    ensures
        head + a != head + b,
        head + a + tail != head + b + tail,
{
    if head + a == head + b {
        assert((head + a).skip(head.len() as int) =~= a);
        assert((head + b).skip(head.len() as int) =~= b);
    }
    let x = head + a + tail;
    let y = head + b + tail;
    if x == y {
        assert(x.len() == y.len());
        assert(x.subrange(head.len() as int, x.len() - tail.len()) =~= a);
        assert(y.subrange(head.len() as int, y.len() - tail.len()) =~= b);
    }
}

/// A button carries the hashes of its route and of its payload, sixteen digits each.
pub proof fn lemma_wire_holds_both_hashes(route: Seq<char>, payload: Seq<char>)
    ensures
        ({
            let wire = keys::wire_value(route, payload);
            &&& wire.len() == 33
            &&& wire[16] == ';'
            &&& wire.subrange(0, 16) == keys::wire_hash(route)
            &&& wire.subrange(17, 33) == keys::wire_hash(payload)
            &&& keys::wire_hash(route) == keys::text_digest(route, 16)
        }),
{
    reveal_strlit(";");
    let wire = keys::wire_value(route, payload);
    assert(wire.subrange(0, 16) =~= keys::wire_hash(route));
    assert(wire.subrange(17, 33) =~= keys::wire_hash(payload));
}

/// The hexadecimal digits of a digest, two for each byte, the higher half first.
pub proof fn lemma_digits_of_a_digest(bytes: Seq<u8>, count: int, i: int)
    requires
        0 <= i,
        2 * i + 1 < count,
        i < bytes.len(),
    ensures
        ({
            let digits = keys::hex_prefix(bytes, count);
            &&& digits.len() == count
            &&& value_of(digits[2 * i]) * 16 + value_of(digits[2 * i + 1]) == bytes[i]
        }),
{
    let digits = keys::hex_prefix(bytes, count);
    let high = bytes[i] as int / 16;
    let low = bytes[i] as int % 16;
    assert((2 * i) % 2 == 0 && (2 * i) / 2 == i);
    assert((2 * i + 1) % 2 == 1 && (2 * i + 1) / 2 == i);
    assert(digits[2 * i] == keys::hex_digit(high));
    assert(digits[2 * i + 1] == keys::hex_digit(low));
}

/// What a hexadecimal digit stands for.
pub open spec fn value_of(c: char) -> int {
    if '0' <= c <= '9' {
        c as int - '0' as int
    } else {
        c as int - 'a' as int + 10
    }
}

// ---------------------------------------------------------------------------
// The wire
// ---------------------------------------------------------------------------

/// What a command is on the wire: its name, its key, and what it takes, in order.
pub proof fn lemma_commands_on_the_wire(
    key: Seq<char>,
    member: Seq<char>,
    n: i64,
    m: i64,
    i: int,
    several: Seq<Seq<char>>,
)
    ensures
        commands::words_of(CommandModel::Get { key }) == seq!["GET"@, key],
        commands::words_of(CommandModel::Ttl { key }) == seq!["TTL"@, key],
        commands::words_of(CommandModel::Store { key, value: member, ttl_seconds: n }) == seq![
            "SET"@,
            key,
            member,
            "EX"@,
            numeral::decimal(n as int),
        ],
        commands::words_of(CommandModel::Del { keys: several }).len() == several.len() + 1,
        commands::words_of(CommandModel::Del { keys: several })[0] == "DEL"@,
        0 <= i < several.len() ==> commands::words_of(CommandModel::Del { keys: several })[i + 1]
            == several[i],
        commands::words_of(CommandModel::Expire { key, ttl_seconds: n }) == seq![
            "EXPIRE"@,
            key,
            numeral::decimal(n as int),
        ],
        commands::words_of(CommandModel::Zadd { key, score: n, member }) == seq![
            "ZADD"@,
            key,
            numeral::decimal(n as int),
            member,
        ],
        commands::words_of(CommandModel::Zrem { key, member }) == seq!["ZREM"@, key, member],
        commands::words_of(CommandModel::ZrevRange { key }) == seq![
            "ZREVRANGE"@,
            key,
            "0"@,
            "-1"@,
        ],
        commands::words_of(CommandModel::ZrangeByScore { key, low: n, high: m }) == seq![
            "ZRANGEBYSCORE"@,
            key,
            numeral::decimal(n as int),
            numeral::decimal(m as int),
        ],
        commands::words_of(CommandModel::ZpopMin { key }) == seq!["ZPOPMIN"@, key, "1"@],
        commands::words_of(CommandModel::Lpush { key, member }) == seq!["LPUSH"@, key, member],
        commands::words_of(CommandModel::Lrange { key }) == seq!["LRANGE"@, key, "0"@, "-1"@],
{
}

// ---------------------------------------------------------------------------
// Lifetimes
// ---------------------------------------------------------------------------

/// Payloads of buttons, contexts of links and messages to delete are kept for a day, and
/// sessions for two hours.
pub proof fn lemma_lifetimes(
    stored: Stored,
    now: i64,
    route: Seq<char>,
    payload: Seq<char>,
    domain: StartContextDomain,
    user_id: int,
)
    requires
        i64::MIN <= now + 86_400_000 <= i64::MAX,
    ensures
        recap_store::callback_stored(stored, now, route, payload)[keys::payload_key(
            route,
            keys::wire_hash(payload),
        )].expires_at_ms == now + 86_400_000,
        recap_store::context_stored(stored, now, domain, route, payload)[keys::context_key(
            domain,
            route,
        )].expires_at_ms == now + 86_400_000,
        recap_store::session_started(stored, now, user_id)[keys::control_key(user_id)].expires_at_ms
            == now + 7_200_000,
{
}

/// An entry is there until the instant at which it expires, and not from then on.
pub proof fn lemma_entries_expire(stored: Stored, now: i64, key: Seq<char>)
    ensures
        recap_state::live(stored, now).contains_key(key) <==> stored.contains_key(key) && now
            < stored[key].expires_at_ms,
        recap_state::live(stored, now).contains_key(key) ==> recap_state::live(stored, now)[key]
            == stored[key],
{
}

/// What is stored for one button or link leaves everything else that is there as it is.
pub proof fn lemma_storing_touches_nothing_else(
    stored: Stored,
    now: i64,
    route: Seq<char>,
    payload: Seq<char>,
    domain: StartContextDomain,
    other: Seq<char>,
)
    requires
        recap_state::live(stored, now).contains_key(other),
    ensures
        other != keys::payload_key(route, keys::wire_hash(payload)) ==> recap_store::callback_stored(
            stored,
            now,
            route,
            payload,
        ).contains_key(other) && recap_store::callback_stored(stored, now, route, payload)[other]
            == stored[other],
        other != keys::context_key(domain, route) ==> recap_store::context_stored(
            stored,
            now,
            domain,
            route,
            payload,
        ).contains_key(other) && recap_store::context_stored(stored, now, domain, route, payload)[other]
            == stored[other],
{
}

/// A session that is begun, goes on or is cancelled leaves every other user's state as it
/// is.
pub proof fn lemma_sessions_touch_nothing_else(
    stored: Stored,
    now: i64,
    user_id: int,
    score: i64,
    json: Seq<char>,
    other: Seq<char>,
)
    requires
        recap_state::live(stored, now).contains_key(other),
        other != keys::control_key(user_id),
        other != keys::batch_key(user_id),
    ensures
        ({
            let begun = recap_store::session_started(stored, now, user_id);
            let gone_on = recap_store::forwarded_appended(stored, now, user_id, score, json);
            let cancelled = recap_store::session_cancelled(stored, now, user_id);
            &&& begun.contains_key(other) && begun[other] == stored[other]
            &&& gone_on.contains_key(other) && gone_on[other] == stored[other]
            &&& cancelled.contains_key(other) && cancelled[other] == stored[other]
        }),
{
}

// ---------------------------------------------------------------------------
// Counting requests
// ---------------------------------------------------------------------------

/// A request is allowed while fewer than the rate were counted; it is then counted, and
/// the pause begins anew. One that is refused counts nothing.
pub proof fn lemma_requests_are_counted(
    chat_id: int,
    rate: i64,
    per_seconds: i64,
    counted: i64,
    left: i64,
)
    requires
        per_seconds > 0,
        0 <= counted < i64::MAX,
    ensures
        ({
            let reply = Some(Some(numeral::decimal(counted as int)));
            let step = commands::rate_step(chat_id, rate, per_seconds, reply, Some(left));
            &&& commands::rate_step(chat_id, rate, per_seconds, None, None) is Send
            &&& commands::rate_step(chat_id, rate, per_seconds, None, None)->Send_0
                == (CommandModel::Get { key: keys::rate_key(chat_id) })
            &&& commands::rate_step(chat_id, rate, per_seconds, reply, None) is Send
            &&& commands::rate_step(chat_id, rate, per_seconds, reply, None)->Send_0
                == (CommandModel::Ttl { key: keys::rate_key(chat_id) })
            &&& counted >= rate ==> {
                &&& step is Report
                &&& !step->Report_0.allowed
                &&& step->Report_0.ttl_seconds == left
                &&& step->Report_0.counted_rate == counted
            }
            &&& counted < rate ==> {
                &&& step is Count
                &&& step->Count_0 == (CommandModel::Store {
                    key: keys::rate_key(chat_id),
                    value: numeral::decimal(counted + 1),
                    ttl_seconds: per_seconds,
                })
                &&& step->Count_1.allowed
                &&& step->Count_1.counted_rate == counted + 1
            }
        }),
{
    numeral::lemma_decimal_reads_back(counted as int);
}

/// Where nothing was counted the first request is, and without a pause every request is
/// allowed.
pub proof fn lemma_first_request(chat_id: int, rate: i64, per_seconds: i64, left: i64)
    requires
        rate > 0,
    ensures
        per_seconds > 0 ==> commands::rate_step(
            chat_id,
            rate,
            per_seconds,
            Some(None),
            Some(left),
        ) is Count,
        per_seconds > 0 ==> commands::rate_step(
            chat_id,
            rate,
            per_seconds,
            Some(None),
            Some(left),
        )->Count_1.counted_rate == 1,
        per_seconds <= 0 ==> commands::rate_step(chat_id, rate, per_seconds, None, None) is Report
            && commands::rate_step(chat_id, rate, per_seconds, None, None)->Report_0.allowed,
{
}

// ---------------------------------------------------------------------------
// The queue
// ---------------------------------------------------------------------------

/// A queued recap is handed out once its instant has come; one that is taken too early is
/// put back under its own instant, and that is tried a hundred times.
pub proof fn lemma_due_recaps_are_handed_out(
    now_ms: i64,
    count: nat,
    member: Seq<char>,
    score: i64,
    failed: nat,
)
    requires
        count > 0,
    ensures
        ({
            let step = commands::pop_step(now_ms, Some(count), Some(Some((member, score))), failed);
            &&& score <= now_ms ==> step == PopStepModel::Due(member)
            &&& score > now_ms && failed < 100 ==> step == PopStepModel::Restore(
                CommandModel::Zadd { key: "recap/auto_recap_queue"@, score, member },
            )
            &&& score > now_ms && failed >= 100 ==> step is Lost
        }),
        commands::pop_step(now_ms, None, None, failed) == PopStepModel::Send(
            CommandModel::ZrangeByScore { key: "recap/auto_recap_queue"@, low: 0, high: now_ms },
        ),
        commands::pop_step(now_ms, Some(0), None, failed) is NothingDue,
        commands::pop_step(now_ms, Some(count), None, failed) == PopStepModel::Send(
            CommandModel::ZpopMin { key: "recap/auto_recap_queue"@ },
        ),
        commands::pop_step(now_ms, Some(count), Some(None), failed) is NothingDue,
{
}

/// In the window of a command that was allowed the next one is counted one higher, and
/// refused once the rate is reached; a refused one counts nothing, and says how many whole
/// seconds are left. Without a window every command is allowed, and none is counted.
pub proof fn lemma_commands_are_counted_up(
    stored: Stored,
    now: i64,
    later: i64,
    chat_id: int,
    rate: i64,
    per_seconds: i64,
    n: i64,
)
    requires
        per_seconds > 0,
        now <= later,
        later < recap_state::deadline(now, per_seconds) <= i64::MAX,
        recap_state::deadline_fits(now, per_seconds),
        0 < n < i64::MAX,
        recap_store::allows_with(
            recap_store::rate_checked(stored, now, chat_id, rate, per_seconds),
            n as int,
        ),
    ensures
        ({
            let left = recap_store::rate_counted(stored, now, chat_id, rate, per_seconds);
            let next = recap_store::rate_checked(left, later, chat_id, rate, per_seconds);
            let after = recap_store::rate_counted(left, later, chat_id, rate, per_seconds);
            &&& n < rate ==> recap_store::allows_with(next, n + 1)
            &&& n >= rate ==> recap_store::refuses(next) && next->Ok_0.counted_rate == n
            &&& next->Ok_0.ttl_seconds == (recap_state::deadline(now, per_seconds) - later) / 1_000
            &&& n >= rate ==> after.contains_key(keys::rate_key(chat_id))
                && after[keys::rate_key(chat_id)] == left[keys::rate_key(chat_id)]
            &&& recap_store::allows_with(
                recap_store::rate_checked(stored, now, chat_id, rate, 0),
                0,
            )
            &&& recap_store::rate_counted(stored, now, chat_id, rate, 0) == stored
        }),
{
    numeral::lemma_decimal_reads_back(n as int);
    let left = recap_store::rate_counted(stored, now, chat_id, rate, per_seconds);
    let key = keys::rate_key(chat_id);
    assert(left.contains_key(key));
    assert(recap_state::live(left, later).contains_key(key));
    assert(recap_store::counted(recap_state::live(left, later), key) == Some(Some(n as int)));
}

} // verus!
