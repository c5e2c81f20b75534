//! The automatic recap queue: its members, and when the next recap is due.

use vstd::prelude::*;

use crate::numeral::{self, format_i64};
use crate::redis::recap_state::{
    self, EntryModel, InMemoryRecapStateStore, RecapStateError, Stored, StoredModel,
};
use crate::redis::recap_store;
use crate::services::envelope;
use crate::text;
use crate::text_map;

pub use crate::redis::keys::AUTO_RECAP_QUEUE_KEY;

verus! {

/// Milliseconds between two looks at the queue.
pub const AUTO_RECAP_POLL_INTERVAL_MS: u64 = 1_000;

// ---------------------------------------------------------------------------
// Members
// ---------------------------------------------------------------------------

/// What one queue member stands for.
#[derive(Debug, Clone, Copy, PartialEq, Eq, Structural)]
pub struct AutoRecapCapsule {
    pub chat_id: i64,
}

/// Why a queue member does not decode.
#[derive(Debug, Clone, Copy, PartialEq, Eq, Structural)]
pub enum MemberError {
    Base64,
    Json,
}

impl MemberError {
    pub fn message(self) -> (out: &'static str)
        ensures
            out@ == match self {
                MemberError::Base64 => "invalid automatic recap member Base64"@,
                MemberError::Json => "invalid automatic recap member JSON"@,
            },
    {
        match self {
            MemberError::Base64 => "invalid automatic recap member Base64",
            MemberError::Json => "invalid automatic recap member JSON",
        }
    }
}

/// The JSON envelope of a chat.
pub open spec fn envelope_of(chat_id: int) -> Seq<char> {
    "{\"payload\":{\"chat_id\":"@ + numeral::decimal(chat_id) + "}}"@
}

/// The digits of Base64.
pub const BASE64_DIGITS: &'static str =
    "ABCDEFGHIJKLMNOPQRSTUVWXYZabcdefghijklmnopqrstuvwxyz0123456789+/";

pub open spec fn base64_digit(n: int) -> char {
    BASE64_DIGITS@[n]
}

/// The standard, padded Base64 of some bytes: four digits for three bytes.
pub open spec fn base64_text(bytes: Seq<u8>) -> Seq<char>
    decreases bytes.len(),
{
    let (x, y, z) = (bytes[0] as int, bytes[1] as int, bytes[2] as int);
    if bytes.len() == 0 {
        Seq::empty()
    } else if bytes.len() == 1 {
        seq![base64_digit(x / 4), base64_digit(x % 4 * 16), '=', '=']
    } else if bytes.len() == 2 {
        seq![
            base64_digit(x / 4),
            base64_digit(x % 4 * 16 + y / 16),
            base64_digit(y % 16 * 4),
            '=',
        ]
    } else {
        seq![
            base64_digit(x / 4),
            base64_digit(x % 4 * 16 + y / 16),
            base64_digit(y % 16 * 4 + z / 64),
            base64_digit(z % 64),
        ] + base64_text(bytes.subrange(3, bytes.len() as int))
    }
}

/// The bytes that a text is the Base64 of, if it is one.
pub open spec fn base64_bytes(s: Seq<char>) -> Option<Seq<u8>> {
    if exists|b: Seq<u8>| s == #[trigger] base64_text(b) {
        Some(choose|b: Seq<u8>| s == #[trigger] base64_text(b))
    } else {
        None
    }
}

/// `base64::engine::general_purpose::STANDARD.encode`. Bytes whose text no buffer can hold
/// are left out.
#[verifier::external_body]
pub(crate) fn encode_base64(bytes: &Vec<u8>) -> (out: String)
    requires
        bytes@.len() <= usize::MAX / 4,
    ensures
        out@ == base64_text(bytes@),
{
    base64::Engine::encode(&base64::engine::general_purpose::STANDARD, bytes)
}

/// `base64::engine::general_purpose::STANDARD.decode`: it takes a text for some bytes if
/// and only if the text is what these bytes are encoded to, since that engine refuses other
/// padding and bits that stand for nothing.
#[verifier::external_body]
pub(crate) fn decode_base64(member: &str) -> (r: Option<Vec<u8>>)
    ensures
        forall|bytes: Seq<u8>|
            member@ == #[trigger] base64_text(bytes) <==> envelope::bytes_model(r) == Some(bytes),
{
    base64::Engine::decode(&base64::engine::general_purpose::STANDARD, member).ok()
}

proof fn lemma_envelope_is_nested(chat_id: int)
    ensures
        envelope_of(chat_id) == envelope::nested("payload"@, "chat_id"@, chat_id),
        envelope::plain_key("payload"@),
        envelope::plain_key("chat_id"@),
{
    reveal_strlit("{\"payload\":{\"chat_id\":");
    reveal_strlit("{");
    reveal_strlit("\"");
    reveal_strlit(":");
    reveal_strlit("}");
    reveal_strlit("}}");
    reveal_strlit("payload");
    reveal_strlit("chat_id");
    assert(envelope_of(chat_id) =~= envelope::nested("payload"@, "chat_id"@, chat_id));
}

proof fn lemma_envelope_is_ascii(chat_id: int)
    ensures
        forall|i: int|
            0 <= i < envelope_of(chat_id).len() ==> (#[trigger] envelope_of(chat_id)[i] as u32)
                < 0x80,
{
    reveal_strlit("{\"payload\":{\"chat_id\":");
    reveal_strlit("}}");
    numeral::lemma_decimal_chars(chat_id);
    let front = "{\"payload\":{\"chat_id\":"@;
    let digits = numeral::decimal(chat_id);
    let s = envelope_of(chat_id);
    assert forall|i: int| 0 <= i < s.len() implies (#[trigger] s[i] as u32) < 0x80 by {
        if i < front.len() {
            assert(s[i] == front[i]);
        } else if i < front.len() + digits.len() {
            assert(s[i] == digits[i - front.len()]);
        } else {
            assert(s[i] == "}}"@[i - front.len() - digits.len()]);
        }
    }
}

fn bytes_of(ascii: &str) -> (out: Vec<u8>)
    requires
        forall|i: int| 0 <= i < ascii@.len() ==> (#[trigger] ascii@[i] as u32) < 0x80,
    ensures
        out@ == envelope::ascii_bytes(ascii@),
{
    let chars: Vec<char> = text::chars_of(ascii);
    let mut out: Vec<u8> = Vec::new();
    let mut i: usize = 0;
    while i < chars.len()
        invariant
            i <= chars.len(),
            chars@ == ascii@,
            forall|i: int| 0 <= i < ascii@.len() ==> (#[trigger] ascii@[i] as u32) < 0x80,
            out@ == envelope::ascii_bytes(ascii@).take(i as int),
        decreases chars.len() - i,
    {
        let c: char = chars[i];
        assert(ascii@[i as int] as u32 == c as u32);
        out.push(c as u8);
        i = i + 1;
        assert(out@ =~= envelope::ascii_bytes(ascii@).take(i as int));
    }
    assert(out@ =~= envelope::ascii_bytes(ascii@));
    out
}

/// The queue member of a chat.
pub open spec fn member_of(chat_id: int) -> Seq<char> {
    base64_text(envelope::ascii_bytes(envelope_of(chat_id)))
}

/// What a queue member stands for.
pub open spec fn capsule_of(member: Seq<char>) -> Result<AutoRecapCapsule, MemberError> {
    match base64_bytes(member) {
        None => Err(MemberError::Base64),
        Some(json) => opened(envelope::number_in(json, "payload"@, "chat_id"@)),
    }
}

/// The capsule of a parsed envelope.
pub open spec fn opened(chat: Option<i64>) -> Result<AutoRecapCapsule, MemberError> {
    match chat {
        None => Err(MemberError::Json),
        Some(chat_id) => Ok(AutoRecapCapsule { chat_id }),
    }
}

/// The queue member of a chat.
pub fn encode_auto_recap_member(chat_id: i64) -> (member: String)
    ensures
        member@ == member_of(chat_id as int),
{
    let number: String = format_i64(chat_id);
    let json: String = text::joined3("{\"payload\":{\"chat_id\":", number.as_str(), "}}");
    assert(json@ =~= envelope_of(chat_id as int));
    proof {
        lemma_envelope_is_ascii(chat_id as int);
        numeral::lemma_decimal_len(chat_id);
        reveal_strlit("{\"payload\":{\"chat_id\":");
        reveal_strlit("}}");
    }
    encode_base64(&bytes_of(json.as_str()))
}

/// The capsule of a parsed envelope.
pub fn open_capsule(chat: Option<i64>) -> (r: Result<AutoRecapCapsule, MemberError>)
    ensures
        r == opened(chat),
{
    match chat {
        None => Err(MemberError::Json),
        Some(chat_id) => Ok(AutoRecapCapsule { chat_id }),
    }
}

/// What a queue member stands for. The member of a chat stands for that chat.
pub fn decode_auto_recap_member(member: &str) -> (r: Result<AutoRecapCapsule, MemberError>)
    ensures
        r == capsule_of(member@),
        forall|chat_id: i64|
            member@ == #[trigger] member_of(chat_id as int) ==> r == Ok::<
                AutoRecapCapsule,
                MemberError,
            >(AutoRecapCapsule { chat_id }),
{
    let decoded: Option<Vec<u8>> = decode_base64(member);
    proof {
        match &decoded {
            Some(json) => {
                assert(member@ == base64_text(json@));
                let found = choose|bytes: Seq<u8>| member@ == #[trigger] base64_text(bytes);
                assert(member@ == base64_text(found));
            },
            None => {
                assert forall|bytes: Seq<u8>| member@ != #[trigger] base64_text(bytes) by {}
            },
        }
        assert(base64_bytes(member@) == envelope::bytes_model(decoded));
    }
    match decoded {
        None => Err(MemberError::Base64),
        Some(json) => {
            let chat: Option<i64> = envelope::read_nested_number(&json, "payload", "chat_id");
            proof {
                assert forall|chat_id: i64|
                    member@ == #[trigger] member_of(chat_id as int) implies chat == Some(
                    chat_id,
                ) by {
                    lemma_envelope_is_nested(chat_id as int);
                }
            }
            open_capsule(chat)
        },
    }
}

// ---------------------------------------------------------------------------
// The queue
// ---------------------------------------------------------------------------

/// Add a chat to the queue, or score it anew, and give its member. `clock_ms` is the time
/// of the store.
pub fn enqueue_auto_recap(
    store: &mut InMemoryRecapStateStore,
    clock_ms: i64,
    chat_id: i64,
    score_ms: i64,
) -> (r: Result<String, RecapStateError>)
    requires
        old(store).wf(),
    ensures
        final(store).wf(),
        ({
            let current = recap_state::live(old(store)@, clock_ms);
            let key = AUTO_RECAP_QUEUE_KEY@;
            if current.contains_key(key) && !(current[key].value is Scored) {
                &&& r is Err
                &&& r->Err_0 == RecapStateError::QueueType
                &&& final(store)@ == current
            } else {
                &&& r is Ok
                &&& r->Ok_0@ == member_of(chat_id as int)
                &&& final(store)@ == recap_state::with_score(
                    current,
                    key,
                    member_of(chat_id as int),
                    score_ms,
                    i64::MAX,
                )
            }
        }),
{
    let member: String = encode_auto_recap_member(chat_id);
    match store.auto_recap_zadd(clock_ms, member.as_str(), score_ms) {
        Ok(_) => Ok(member),
        Err(error) => Err(error),
    }
}

/// What comes of a member that was taken out of the queue: what it stands for, and the
/// chat where it is the member of one.
pub open spec fn taken(
    r: Result<Option<AutoRecapCapsule>, MemberError>,
    member: Seq<char>,
) -> bool {
    &&& r == match capsule_of(member) {
        Ok(capsule) => Ok(Some(capsule)),
        Err(error) => Err(error),
    }
    &&& forall|chat_id: i64|
        member == #[trigger] member_of(chat_id as int) ==> r == Ok::<
            Option<AutoRecapCapsule>,
            MemberError,
        >(Some(AutoRecapCapsule { chat_id }))
}

/// The queue without `member`.
pub open spec fn without_member(
    stored: Stored,
    scores: Map<Seq<char>, i64>,
    member: Seq<char>,
) -> Stored {
    let key = AUTO_RECAP_QUEUE_KEY@;
    stored.insert(
        key,
        EntryModel {
            value: StoredModel::Scored(scores.remove(member)),
            expires_at_ms: stored[key].expires_at_ms,
        },
    )
}

/// Take at most one due member out of the queue, and say what it stands for. A member that
/// stands for nothing is gone as well. `clock_ms` is the time of the store.
pub fn pop_due_auto_recap(store: &mut InMemoryRecapStateStore, clock_ms: i64, now_ms: i64) -> (r:
    Result<Option<AutoRecapCapsule>, MemberError>)
    requires
        old(store).wf(),
    ensures
        final(store).wf(),
        ({
            let current = recap_state::live(old(store)@, clock_ms);
            match recap_store::scores_at(current, AUTO_RECAP_QUEUE_KEY@) {
                Some(scores) => if recap_store::some_due(scores, now_ms) {
                    exists|member: Seq<char>| #[trigger]
                        text_map::lowest(scores, member) && taken(r, member) && final(store)@
                            == without_member(current, scores, member)
                } else {
                    r == Ok::<Option<AutoRecapCapsule>, MemberError>(None) && final(store)@
                        == current
                },
                None => r == Ok::<Option<AutoRecapCapsule>, MemberError>(None) && final(store)@
                    == current,
            }
        }),
{
    let ghost current = recap_state::live(store@, clock_ms);
    let member: String = match store.auto_recap_zpop_due(clock_ms, now_ms) {
        Some(member) => member,
        None => {
            return Ok(None);
        },
    };
    let ghost scores = recap_store::scores_at(current, AUTO_RECAP_QUEUE_KEY@)->0;
    let ghost popped = store@;
    assert(popped == without_member(current, scores, member@));
    store.auto_recap_zrem(clock_ms, member.as_str());
    proof {
        let key = AUTO_RECAP_QUEUE_KEY@;
        assert(recap_state::live(popped, clock_ms) =~= popped);
        assert(scores.remove(member@).remove(member@) =~= scores.remove(member@));
        assert(store@ =~= popped);
        assert(text_map::lowest(scores, member@));
    }
    match decode_auto_recap_member(member.as_str()) {
        Ok(capsule) => Ok(Some(capsule)),
        Err(error) => Err(error),
    }
}

/// A chat that alone is queued is the one that is taken out, once it is due.
pub proof fn lemma_queued_alone(chat_id: i64, score_ms: i64, now_ms: i64, member: Seq<char>)
    requires
        0 <= score_ms <= now_ms,
        text_map::lowest(map![member_of(chat_id as int) => score_ms], member),
    ensures
        recap_store::some_due(map![member_of(chat_id as int) => score_ms], now_ms),
        member == member_of(chat_id as int),
{
    assert(map![member_of(chat_id as int) => score_ms].contains_key(member_of(chat_id as int)));
}

// ---------------------------------------------------------------------------
// The schedule
// ---------------------------------------------------------------------------

/// Two, three or four recaps a day; anything else means four.
pub open spec fn effective_rate(rates_per_day: i32) -> i32 {
    if 2 <= rates_per_day <= 4 {
        rates_per_day
    } else {
        4
    }
}

pub fn effective_auto_recap_rate(rates_per_day: i32) -> (r: i32)
    ensures
        r == effective_rate(rates_per_day),
{
    if 2 <= rates_per_day && rates_per_day <= 4 {
        rates_per_day
    } else {
        4
    }
}

/// The hours of the day at which recaps are due.
pub open spec fn slots(rates_per_day: i32) -> Seq<int> {
    if effective_rate(rates_per_day) == 2 {
        seq![8, 20]
    } else if effective_rate(rates_per_day) == 3 {
        seq![0, 8, 16]
    } else {
        seq![2, 8, 14, 20]
    }
}

/// The hours that one recap looks back.
pub open spec fn window_hours(rates_per_day: i32) -> i64 {
    if effective_rate(rates_per_day) == 2 {
        12
    } else if effective_rate(rates_per_day) == 3 {
        8
    } else {
        6
    }
}

pub fn auto_recap_window_hours(rates_per_day: i32) -> (hours: i64)
    ensures
        hours == window_hours(rates_per_day),
{
    let rate: i32 = effective_auto_recap_rate(rates_per_day);
    if rate == 2 {
        12
    } else if rate == 3 {
        8
    } else {
        6
    }
}

pub const DAY_MS: i64 = 86_400_000;

pub const HOUR_MS: i64 = 3_600_000;

/// The first and the last instant that calendar arithmetic covers, in milliseconds.
pub const FIRST_INSTANT_MS: i64 = -8_334_601_228_800_000;

pub const LAST_INSTANT_MS: i64 = 8_210_266_876_799_999;

/// `n`, or the nearest number that 64 bits hold.
pub open spec fn clamped(n: int) -> int {
    if n < i64::MIN {
        i64::MIN as int
    } else if n > i64::MAX {
        i64::MAX as int
    } else {
        n
    }
}

/// The fixed offset of local time.
pub open spec fn offset_ms(timezone_shift_seconds: i64) -> int {
    clamped(timezone_shift_seconds * 1_000)
}

/// Local time.
pub open spec fn local_ms(now_utc_ms: i64, timezone_shift_seconds: i64) -> int {
    clamped(now_utc_ms + offset_ms(timezone_shift_seconds))
}

/// The first slot after the hour `hour`, from `i` on; none on that day.
pub open spec fn slot_after(slots: Seq<int>, hour: int, i: int) -> Option<int>
    decreases slots.len() - i,
{
    if i < 0 || i >= slots.len() {
        None
    } else if hour < slots[i] {
        Some(slots[i])
    } else {
        slot_after(slots, hour, i + 1)
    }
}

/// The local instant of the next slot: a slot is past once its hour has begun.
pub open spec fn local_due(local: int, rates_per_day: i32) -> int {
    let day = local - local % (DAY_MS as int);
    let hour = (local % (DAY_MS as int)) / (HOUR_MS as int);
    match slot_after(slots(rates_per_day), hour, 0) {
        Some(slot) => day + slot * HOUR_MS,
        None => day + DAY_MS + slots(rates_per_day)[0] * HOUR_MS,
    }
}

/// When the next recap is due.
pub open spec fn next_due(now_utc_ms: i64, timezone_shift_seconds: i64, rates_per_day: i32) -> int {
    clamped(
        local_due(local_ms(now_utc_ms, timezone_shift_seconds), rates_per_day) - offset_ms(
            timezone_shift_seconds,
        ),
    )
}

/// Whether calendar arithmetic covers the local time and the day of the next slot.
pub open spec fn schedulable(
    now_utc_ms: i64,
    timezone_shift_seconds: i64,
    rates_per_day: i32,
) -> bool {
    let local = local_ms(now_utc_ms, timezone_shift_seconds);
    FIRST_INSTANT_MS <= local <= LAST_INSTANT_MS && local_due(local, rates_per_day)
        <= LAST_INSTANT_MS
}

/// The next automatic recap slot in Unix milliseconds.
pub fn next_auto_recap_at_ms(
    now_utc_ms: i64,
    timezone_shift_seconds: i64,
    rates_per_day: i32,
) -> (due: i64)
    requires
        schedulable(now_utc_ms, timezone_shift_seconds, rates_per_day),
    ensures
        due == next_due(now_utc_ms, timezone_shift_seconds, rates_per_day),
{
    let offset: i64 = clamp(timezone_shift_seconds as i128 * 1_000);
    let local: i64 = clamp(now_utc_ms as i128 + offset as i128);
    let into_day: i64 = day_remainder(local);
    let day: i64 = local - into_day;
    let hour: i64 = into_day / HOUR_MS;
    let rate: i32 = effective_auto_recap_rate(rates_per_day);
    let slot: i64 = next_slot(rate, hour);
    let due: i64 = day + slot * HOUR_MS;
    clamp(due as i128 - offset as i128)
}

fn clamp(n: i128) -> (r: i64)
    ensures
        r == clamped(n as int),
{
    if n < -9_223_372_036_854_775_808 {
        i64::MIN
    } else if n > 9_223_372_036_854_775_807 {
        i64::MAX
    } else {
        n as i64
    }
}

fn day_remainder(local: i64) -> (r: i64)
    ensures
        r == (local as int) % (DAY_MS as int),
        0 <= r < DAY_MS,
{
    if local >= 0 {
        local % DAY_MS
    } else {
        let back: i64 = (-(local + 1)) % DAY_MS;
        proof {
            let q = (-(local + 1)) / (DAY_MS as int);
            assert(-(local + 1) == q * DAY_MS + back);
            assert(local == (-q - 1) * DAY_MS + (DAY_MS - 1 - back)) by (nonlinear_arith)
                requires
                    -(local + 1) == q * DAY_MS + back,
            ;
            vstd::arithmetic::div_mod::lemma_fundamental_div_mod_converse(
                local as int,
                DAY_MS as int,
                -q - 1,
                DAY_MS - 1 - back,
            );
        }
        DAY_MS - 1 - back
    }
}

fn next_slot(rate: i32, hour: i64) -> (slot: i64)
    requires
        effective_rate(rate) == rate,
        0 <= hour < 24,
    ensures
        slot == match slot_after(slots(rate), hour as int, 0) {
            Some(found) => found,
            None => 24 + slots(rate)[0],
        },
        0 <= slot <= 32,
{
    proof {
        reveal_with_fuel(slot_after, 5);
    }
    if rate == 2 {
        if hour < 8 {
            8
        } else if hour < 20 {
            20
        } else {
            32
        }
    } else if rate == 3 {
        if hour < 8 {
            8
        } else if hour < 16 {
            16
        } else {
            24
        }
    } else {
        if hour < 2 {
            2
        } else if hour < 8 {
            8
        } else if hour < 14 {
            14
        } else if hour < 20 {
            20
        } else {
            26
        }
    }
}

/// An hour of today or tomorrow as an hour of the day.
pub open spec fn wrapped(hour: int) -> int {
    if hour >= 24 {
        hour - 24
    } else {
        hour
    }
}

/// The hour of the next slot, counted from the start of today.
pub open spec fn upcoming(rates_per_day: i32, hour: int) -> int {
    match slot_after(slots(rates_per_day), hour, 0) {
        Some(slot) => slot,
        None => 24 + slots(rates_per_day)[0],
    }
}

proof fn lemma_upcoming(rates_per_day: i32, hour: int)
    requires
        0 <= hour < 24,
    ensures
        hour < upcoming(rates_per_day, hour) <= 32,
        upcoming(rates_per_day, hour) <= hour + window_hours(rates_per_day),
        slots(rates_per_day).contains(wrapped(upcoming(rates_per_day, hour))),
        forall|h: int|
            hour < h < upcoming(rates_per_day, hour) ==> !slots(rates_per_day).contains(
                #[trigger] wrapped(h),
            ),
{
    reveal_with_fuel(slot_after, 5);
    let all = slots(rates_per_day);
    let slot = upcoming(rates_per_day, hour);
    assert(all[0] == wrapped(slot) || all[1] == wrapped(slot) || (all.len() > 2 && all[2]
        == wrapped(slot)) || (all.len() > 3 && all[3] == wrapped(slot)));
    assert forall|h: int| hour < h < slot implies !all.contains(#[trigger] wrapped(h)) by {
        assert forall|k: int| 0 <= k < all.len() implies all[k] != wrapped(h) by {}
    }
}

proof fn lemma_full_hour(day: int, hour: int)
    requires
        0 <= hour < 48,
    ensures
        ({
            let instant = day * DAY_MS + hour * HOUR_MS;
            instant % (HOUR_MS as int) == 0 && (instant % (DAY_MS as int)) / (HOUR_MS as int)
                == wrapped(hour)
        }),
{
    let instant = day * DAY_MS + hour * HOUR_MS;
    let days = if hour >= 24 {
        day + 1
    } else {
        day
    };
    assert(instant == days * DAY_MS + wrapped(hour) * HOUR_MS);
    vstd::arithmetic::div_mod::lemma_fundamental_div_mod_converse(
        instant,
        DAY_MS as int,
        days,
        wrapped(hour) * HOUR_MS,
    );
    vstd::arithmetic::div_mod::lemma_fundamental_div_mod_converse(
        instant,
        HOUR_MS as int,
        day * 24 + hour,
        0,
    );
}

/// The next slot lies after now and no further ahead than one recap looks back, at a full
/// hour of the schedule in local time, and no other slot of the schedule lies between.
pub proof fn lemma_next_slot(
    now_utc_ms: i64,
    timezone_shift_seconds: i64,
    rates_per_day: i32,
    between: int,
)
    requires
        schedulable(now_utc_ms, timezone_shift_seconds, rates_per_day),
        i64::MIN <= timezone_shift_seconds * 1_000 <= i64::MAX,
        i64::MIN <= now_utc_ms + timezone_shift_seconds * 1_000 <= i64::MAX,
        i64::MIN <= local_due(
            now_utc_ms + timezone_shift_seconds * 1_000,
            rates_per_day,
        ) - timezone_shift_seconds * 1_000 <= i64::MAX,
    ensures
        ({
            let due = next_due(now_utc_ms, timezone_shift_seconds, rates_per_day);
            let local = due + timezone_shift_seconds * 1_000;
            &&& now_utc_ms < due <= now_utc_ms + window_hours(rates_per_day) * HOUR_MS
            &&& local % (HOUR_MS as int) == 0
            &&& slots(rates_per_day).contains((local % (DAY_MS as int)) / (HOUR_MS as int))
            &&& {
                let instant = between + timezone_shift_seconds * 1_000;
                now_utc_ms < between < due && instant % (HOUR_MS as int) == 0 ==> !slots(
                    rates_per_day,
                ).contains((instant % (DAY_MS as int)) / (HOUR_MS as int))
            }
        }),
{
    let shift = timezone_shift_seconds * 1_000;
    let local = now_utc_ms + shift;
    let into = local % (DAY_MS as int);
    let q = local / (DAY_MS as int);
    let hour = into / (HOUR_MS as int);
    let slot = upcoming(rates_per_day, hour);
    vstd::arithmetic::div_mod::lemma_fundamental_div_mod(local, DAY_MS as int);
    vstd::arithmetic::div_mod::lemma_fundamental_div_mod(into, HOUR_MS as int);
    lemma_upcoming(rates_per_day, hour);
    lemma_full_hour(q, slot);
    let due = local_due(local, rates_per_day);
    assert(due == q * DAY_MS + slot * HOUR_MS);
    assert(next_due(now_utc_ms, timezone_shift_seconds, rates_per_day) == due - shift);
    let instant = between + shift;
    if now_utc_ms < between < due - shift && instant % (HOUR_MS as int) == 0 {
        let at = instant - q * DAY_MS;
        vstd::arithmetic::div_mod::lemma_fundamental_div_mod(instant, HOUR_MS as int);
        let h = instant / (HOUR_MS as int) - q * 24;
        assert(at == h * HOUR_MS);
        assert(hour < h < slot);
        lemma_full_hour(q, h);
        assert(instant == q * DAY_MS + h * HOUR_MS);
        assert(!slots(rates_per_day).contains(wrapped(h)));
    }
}

/// Whether a stored rate is one that 32 bits hold; anything else means four a day.
pub open spec fn narrow_rate(rates_per_day: i64) -> i32 {
    if i32::MIN <= rates_per_day <= i32::MAX {
        rates_per_day as i32
    } else {
        4
    }
}

pub fn stored_rate(rates_per_day: i64) -> (r: i32)
    ensures
        r == narrow_rate(rates_per_day),
{
    if -2_147_483_648 <= rates_per_day && rates_per_day <= 2_147_483_647 {
        rates_per_day as i32
    } else {
        4
    }
}

} // verus!
