//! The operations of the in-memory recap state, and what they guarantee together.

use vstd::prelude::*;

use crate::numeral::{self, format_i64, parse_i64};
use crate::redis::keys::{self, StartContextDomain};
use crate::redis::recap_state::{
    self, InMemoryRecapStateStore, ManualRecapRateResult, RecapStateError, StoredEntry, StoredValue,
};
use crate::redis::recap_state::{EntryModel, Stored, StoredModel};
use crate::text::{self, same};
use crate::text_map::{self, TextMap};

verus! {

// ---------------------------------------------------------------------------
// What each operation leaves behind
// ---------------------------------------------------------------------------

pub open spec fn callback_stored(
    stored: Stored,
    now: i64,
    route: Seq<char>,
    payload: Seq<char>,
) -> Stored {
    recap_state::with_text(
        recap_state::live(stored, now),
        now,
        keys::payload_key(route, keys::wire_hash(payload)),
        payload,
        keys::CALLBACK_PAYLOAD_TTL_SECONDS,
    )
}

pub open spec fn context_stored(
    stored: Stored,
    now: i64,
    domain: StartContextDomain,
    token: Seq<char>,
    json: Seq<char>,
) -> Stored {
    recap_state::with_text(
        recap_state::live(stored, now),
        now,
        keys::context_key(domain, token),
        json,
        keys::START_CONTEXT_TTL_SECONDS,
    )
}

/// The batch of a session that was open is dropped before the session opens anew.
pub open spec fn session_started(stored: Stored, now: i64, user_id: int) -> Stored {
    let current = recap_state::live(stored, now);
    let cleared = if recap_state::session_open(current, user_id) {
        current.remove(keys::batch_key(user_id))
    } else {
        current
    };
    recap_state::with_text(
        cleared,
        now,
        keys::control_key(user_id),
        keys::FORWARDED_CONTROL_ACTIVE_VALUE@,
        keys::FORWARDED_SESSION_TTL_SECONDS,
    )
}

pub open spec fn forwarded_appended(
    stored: Stored,
    now: i64,
    user_id: int,
    score: i64,
    json: Seq<char>,
) -> Stored {
    let scored = recap_state::with_score(
        recap_state::live(stored, now),
        keys::batch_key(user_id),
        json,
        score,
        recap_state::deadline(now, keys::FORWARDED_SESSION_TTL_SECONDS) as i64,
    );
    recap_state::refreshed(
        scored,
        now,
        keys::control_key(user_id),
        keys::FORWARDED_SESSION_TTL_SECONDS,
    )
}

pub open spec fn session_cancelled(stored: Stored, now: i64, user_id: int) -> Stored {
    let current = recap_state::live(stored, now);
    if recap_state::session_open(current, user_id) {
        current.remove(keys::batch_key(user_id)).remove(keys::control_key(user_id))
    } else {
        current
    }
}

pub open spec fn later_pushed(
    stored: Stored,
    now: i64,
    user_id: i64,
    chat_id: i64,
    message_id: i32,
) -> Stored {
    if recap_state::pushable(user_id, chat_id, message_id) {
        recap_state::with_head(
            recap_state::live(stored, now),
            now,
            keys::later_key(user_id as int),
            keys::later_member(chat_id as int, message_id as int),
            keys::DELETE_LATER_TTL_SECONDS,
        )
    } else {
        stored
    }
}

/// The messages that a delete-later list names.
pub open spec fn later_messages(stored: Stored, user_id: int) -> Seq<(i64, i32)> {
    let key = keys::later_key(user_id);
    if stored.contains_key(key) {
        match stored[key].value {
            StoredModel::List(members) => recap_state::named_messages(members, 0),
            _ => Seq::empty(),
        }
    } else {
        Seq::empty()
    }
}

/// The scores of a set, none where there is no set.
pub open spec fn scores_at(stored: Stored, key: Seq<char>) -> Option<Map<Seq<char>, i64>> {
    if stored.contains_key(key) {
        match stored[key].value {
            StoredModel::Scored(scores) => Some(scores),
            _ => None,
        }
    } else {
        None
    }
}

/// The counter of a command, none where nothing counts.
pub open spec fn counted(stored: Stored, key: Seq<char>) -> Option<Option<int>> {
    match recap_state::text_at(stored, key) {
        Some(text) => Some(numeral::parsed_within(text, i64::MIN as int, i64::MAX as int)),
        None => None,
    }
}

/// Whether the time that `key` has left fits 64 bits.
pub open spec fn countable(stored: Stored, now: i64, key: Seq<char>) -> bool {
    stored.contains_key(key) ==> stored[key].expires_at_ms - now <= i64::MAX
}

/// Seconds until `key` expires, and -2 where nothing counts.
pub open spec fn counter_ttl(stored: Stored, now: i64, key: Seq<char>) -> int {
    match recap_state::text_at(stored, key) {
        Some(_) => (stored[key].expires_at_ms - now) / 1_000,
        None => -2,
    }
}

/// The outcome of the command limiter: a window of no length allows everything, a
/// counter that reached `rate` refuses, and anything else counts on.
pub open spec fn rate_checked(
    stored: Stored,
    now: i64,
    chat_id: int,
    rate: i64,
    per_seconds: i64,
) -> Result<ManualRecapRateResult, RecapStateError> {
    let key = keys::rate_key(chat_id);
    let current = recap_state::live(stored, now);
    if per_seconds <= 0 {
        Ok(ManualRecapRateResult { counted_rate: 0, ttl_seconds: 0, allowed: true })
    } else {
        match counted(current, key) {
            Some(None) => Err(RecapStateError::CounterType),
            Some(Some(n)) => {
                let ttl = counter_ttl(current, now, key) as i64;
                if n >= rate {
                    Ok(
                        ManualRecapRateResult {
                            counted_rate: n as i64,
                            ttl_seconds: ttl,
                            allowed: false,
                        },
                    )
                } else {
                    Ok(
                        ManualRecapRateResult {
                            counted_rate: (n + 1) as i64,
                            ttl_seconds: ttl,
                            allowed: true,
                        },
                    )
                }
            },
            None => if 0 >= rate {
                Ok(ManualRecapRateResult { counted_rate: 0, ttl_seconds: (-2) as i64,
                    allowed: false })
            } else {
                Ok(ManualRecapRateResult { counted_rate: 1, ttl_seconds: (-2) as i64,
                    allowed: true })
            },
        }
    }
}

/// What the command limiter leaves behind: the new count where the command counts.
pub open spec fn rate_counted(
    stored: Stored,
    now: i64,
    chat_id: int,
    rate: i64,
    per_seconds: i64,
) -> Stored {
    let current = recap_state::live(stored, now);
    if per_seconds <= 0 {
        stored
    } else {
        match rate_checked(stored, now, chat_id, rate, per_seconds) {
            Ok(result) => if result.allowed {
                recap_state::with_text(
                    current,
                    now,
                    keys::rate_key(chat_id),
                    numeral::decimal(result.counted_rate as int),
                    per_seconds,
                )
            } else {
                current
            },
            Err(_) => current,
        }
    }
}

/// Whether some member is due at `now`.
pub open spec fn some_due(scores: Map<Seq<char>, i64>, now: i64) -> bool {
    exists|member: Seq<char>| #[trigger]
        scores.contains_key(member) && 0 <= scores[member] <= now
}

fn ttl_deadline(now_ms: i64, ttl_seconds: i64) -> (at: i64)
    requires
        recap_state::deadline_fits(now_ms, ttl_seconds),
    ensures
        at == recap_state::deadline(now_ms, ttl_seconds),
{
    now_ms + ttl_seconds * 1_000
}

fn lists_due(members: &Vec<(i64, String)>, now_ms: i64) -> (r: bool)
    ensures
        r == exists|k: int| 0 <= k < members@.len() && 0 <= (#[trigger] members@[k]).0 <= now_ms,
{
    let mut i: usize = 0;
    while i < members.len()
        invariant
            i <= members.len(),
            forall|k: int| 0 <= k < i ==> !(0 <= (#[trigger] members@[k]).0 <= now_ms),
        decreases members.len() - i,
    {
        if 0 <= members[i].0 && members[i].0 <= now_ms {
            assert(0 <= members@[i as int].0 <= now_ms);
            return true;
        }
        i = i + 1;
    }
    false
}

impl InMemoryRecapStateStore {
    fn set_string(&mut self, now_ms: i64, key: &str, value: &str, ttl_seconds: i64)
        requires
            old(self).wf(),
            recap_state::deadline_fits(now_ms, ttl_seconds),
        ensures
            final(self).wf(),
            final(self)@ == recap_state::with_text(
                old(self)@,
                now_ms,
                key@,
                value@,
                ttl_seconds,
            ),
    {
        let entry = StoredEntry {
            value: StoredValue::Text(value.to_owned()),
            expires_at_ms: ttl_deadline(now_ms, ttl_seconds),
        };
        self.put(key, entry);
    }

    fn refresh_expiry(&mut self, now_ms: i64, key: &str, ttl_seconds: i64)
        requires
            old(self).wf(),
            recap_state::deadline_fits(now_ms, ttl_seconds),
        ensures
            final(self).wf(),
            final(self)@ == recap_state::refreshed(old(self)@, now_ms, key@, ttl_seconds),
    {
        match self.take(key) {
            Some(entry) => {
                self.put(
                    key,
                    StoredEntry {
                        value: entry.value,
                        expires_at_ms: ttl_deadline(now_ms, ttl_seconds),
                    },
                );
                assert(self@ =~= recap_state::refreshed(old(self)@, now_ms, key@, ttl_seconds));
            },
            None => {
                assert(self@ =~= old(self)@);
            },
        }
    }

    fn push_list_front(&mut self, now_ms: i64, key: &str, member: &str, ttl_seconds: i64)
        requires
            old(self).wf(),
            recap_state::deadline_fits(now_ms, ttl_seconds),
        ensures
            final(self).wf(),
            final(self)@ == recap_state::with_head(
                old(self)@,
                now_ms,
                key@,
                member@,
                ttl_seconds,
            ),
    {
        let value: StoredValue = match self.take(key) {
            Some(entry) => entry.value,
            None => {
                let none: Vec<String> = Vec::new();
                assert(text::texts(none@) =~= Seq::<Seq<char>>::empty());
                StoredValue::List(none)
            },
        };
        let pushed: StoredValue = match value {
            StoredValue::List(mut members) => {
                let ghost before = members@;
                members.insert(0, member.to_owned());
                assert(text::texts(members@) =~= seq![member@] + text::texts(before));
                StoredValue::List(members)
            },
            other => other,
        };
        self.put(
            key,
            StoredEntry { value: pushed, expires_at_ms: ttl_deadline(now_ms, ttl_seconds) },
        );
        assert(self@ =~= recap_state::with_head(old(self)@, now_ms, key@, member@, ttl_seconds));
    }

    fn add_score(&mut self, key: &str, member: &str, score: i64, expires_at_ms: i64)
        requires
            old(self).wf(),
        ensures
            final(self).wf(),
            final(self)@ == recap_state::with_score(
                old(self)@,
                key@,
                member@,
                score,
                expires_at_ms,
            ),
    {
        let value: StoredValue = match self.take(key) {
            Some(entry) => entry.value,
            None => StoredValue::Scored(TextMap::new()),
        };
        let scored: StoredValue = match value {
            StoredValue::Scored(mut scores) => {
                scores.insert(member, score);
                StoredValue::Scored(scores)
            },
            other => other,
        };
        self.put(key, StoredEntry { value: scored, expires_at_ms });
        assert(self@ =~= recap_state::with_score(old(self)@, key@, member@, score, expires_at_ms));
    }

    /// The live text stored at `key`.
    pub fn raw_string(&mut self, now_ms: i64, key: &str) -> (r: Option<String>)
        requires
            old(self).wf(),
        ensures
            final(self).wf(),
            final(self)@ == recap_state::live(old(self)@, now_ms),
            text::viewed(r) == recap_state::text_at(final(self)@, key@),
    {
        self.forget_expired(now_ms);
        match self.entry(key) {
            Some(entry) => match &entry.value {
                StoredValue::Text(value) => Some(value.clone()),
                _ => None,
            },
            None => None,
        }
    }

    /// Set a text for `ttl_seconds`.
    pub fn set_raw_string(&mut self, now_ms: i64, key: &str, value: &str, ttl_seconds: i64)
        requires
            old(self).wf(),
            recap_state::deadline_fits(now_ms, ttl_seconds),
        ensures
            final(self).wf(),
            final(self)@ == recap_state::with_text(
                recap_state::live(old(self)@, now_ms),
                now_ms,
                key@,
                value@,
                ttl_seconds,
            ),
    {
        self.forget_expired(now_ms);
        self.set_string(now_ms, key, value, ttl_seconds);
    }

    /// The live sorted set at `key`, by ascending score, then by member.
    pub fn raw_zset(&mut self, now_ms: i64, key: &str) -> (r: Option<Vec<(i64, String)>>)
        requires
            old(self).wf(),
        ensures
            final(self).wf(),
            final(self)@ == recap_state::live(old(self)@, now_ms),
            match r {
                Some(members) => scores_at(final(self)@, key@) is Some && text_map::lists(
                    text_map::scored(members@),
                    scores_at(final(self)@, key@)->0,
                ),
                None => scores_at(final(self)@, key@) is None,
            },
    {
        self.forget_expired(now_ms);
        match self.entry(key) {
            Some(entry) => match &entry.value {
                StoredValue::Scored(scores) => Some(scores.by_score()),
                _ => None,
            },
            None => None,
        }
    }

    /// The live list at `key`, head first.
    pub fn raw_list(&mut self, now_ms: i64, key: &str) -> (r: Option<Vec<String>>)
        requires
            old(self).wf(),
        ensures
            final(self).wf(),
            final(self)@ == recap_state::live(old(self)@, now_ms),
            match r {
                Some(members) => final(self)@.contains_key(key@) && final(self)@[key@].value
                    == StoredModel::List(text::texts(members@)),
                None => !final(self)@.contains_key(key@) || !(final(self)@[key@].value is List),
            },
    {
        self.forget_expired(now_ms);
        match self.entry(key) {
            Some(entry) => match &entry.value {
                StoredValue::List(members) => {
                    let mut out: Vec<String> = Vec::new();
                    let mut i: usize = 0;
                    while i < members.len()
                        invariant
                            i <= members.len(),
                            out.len() == i,
                            forall|k: int| 0 <= k < i ==> (#[trigger] out@[k])@ == members@[k]@,
                        decreases members.len() - i,
                    {
                        out.push(members[i].clone());
                        i = i + 1;
                    }
                    assert(text::texts(out@) =~= text::texts(members@));
                    Some(out)
                },
                _ => None,
            },
            None => None,
        }
    }

    /// Milliseconds left before `key` expires.
    pub fn ttl_ms(&mut self, now_ms: i64, key: &str) -> (r: Option<i64>)
        requires
            old(self).wf(),
            countable(old(self)@, now_ms, key@),
        ensures
            final(self).wf(),
            final(self)@ == recap_state::live(old(self)@, now_ms),
            match r {
                Some(left) => final(self)@.contains_key(key@) && left
                    == final(self)@[key@].expires_at_ms - now_ms,
                None => !final(self)@.contains_key(key@),
            },
    {
        self.forget_expired(now_ms);
        match self.entry(key) {
            Some(entry) => {
                assert(self@.contains_key(key@));
                Some(entry.expires_at_ms - now_ms)
            },
            None => None,
        }
    }

    /// Make `key` expire at once.
    pub fn expire_key_now(&mut self, now_ms: i64, key: &str)
        requires
            old(self).wf(),
        ensures
            final(self).wf(),
            final(self)@ == recap_state::refreshed(
                recap_state::live(old(self)@, now_ms),
                now_ms,
                key@,
                0,
            ),
    {
        self.forget_expired(now_ms);
        self.refresh_expiry(now_ms, key, 0);
    }

    /// Push an unvalidated delete-later member.
    pub fn push_raw_delete_later_member(&mut self, now_ms: i64, user_id: i64, raw: &str)
        requires
            old(self).wf(),
            recap_state::deadline_fits(now_ms, keys::DELETE_LATER_TTL_SECONDS),
        ensures
            final(self).wf(),
            final(self)@ == recap_state::with_head(
                recap_state::live(old(self)@, now_ms),
                now_ms,
                keys::later_key(user_id as int),
                raw@,
                keys::DELETE_LATER_TTL_SECONDS,
            ),
    {
        self.forget_expired(now_ms);
        let key: String = keys::delete_later_key(user_id);
        self.push_list_front(now_ms, key.as_str(), raw, keys::DELETE_LATER_TTL_SECONDS);
    }

    /// Store a callback payload and give its wire value.
    pub fn put_callback(&mut self, now_ms: i64, route: &str, payload_json: &str) -> (wire: String)
        requires
            old(self).wf(),
            recap_state::deadline_fits(now_ms, keys::CALLBACK_PAYLOAD_TTL_SECONDS),
        ensures
            final(self).wf(),
            wire@ == keys::wire_value(route@, payload_json@),
            final(self)@ == callback_stored(old(self)@, now_ms, route@, payload_json@),
    {
        let action_hash: String = keys::callback_action_hash(payload_json);
        let key: String = keys::callback_payload_key(route, action_hash.as_str());
        self.forget_expired(now_ms);
        self.set_string(now_ms, key.as_str(), payload_json, keys::CALLBACK_PAYLOAD_TTL_SECONDS);
        keys::callback_wire_value(route, payload_json)
    }

    /// Read a stored callback payload without consuming it.
    pub fn get_callback(&mut self, now_ms: i64, route: &str, action_hash: &str) -> (r: Option<
        String,
    >)
        requires
            old(self).wf(),
        ensures
            final(self).wf(),
            final(self)@ == recap_state::live(old(self)@, now_ms),
            text::viewed(r) == recap_state::text_at(
                final(self)@,
                keys::payload_key(route@, action_hash@),
            ),
    {
        let key: String = keys::callback_payload_key(route, action_hash);
        self.raw_string(now_ms, key.as_str())
    }

    /// Apply the command limiter of public manual recaps.
    pub fn check_manual_recap_rate(
        &mut self,
        now_ms: i64,
        chat_id: i64,
        rate: i64,
        per_seconds: i64,
    ) -> (r: Result<ManualRecapRateResult, RecapStateError>)
        requires
            old(self).wf(),
            countable(old(self)@, now_ms, keys::rate_key(chat_id as int)),
            per_seconds > 0 ==> recap_state::deadline_fits(now_ms, per_seconds),
        ensures
            final(self).wf(),
            r == rate_checked(old(self)@, now_ms, chat_id as int, rate, per_seconds),
            final(self)@ == rate_counted(old(self)@, now_ms, chat_id as int, rate, per_seconds),
    {
        if per_seconds <= 0 {
            return Ok(ManualRecapRateResult { counted_rate: 0, ttl_seconds: 0, allowed: true });
        }
        let key: String = keys::manual_recap_rate_key(chat_id);
        self.forget_expired(now_ms);
        let ghost current = self@;
        let (counted_rate, ttl_seconds): (i64, i64) = match self.entry(key.as_str()) {
            Some(entry) => match &entry.value {
                StoredValue::Text(value) => match parse_i64(value.as_str()) {
                    Some(n) => {
                        assert(current.contains_key(key@));
                        (n, (entry.expires_at_ms - now_ms) / 1_000)
                    },
                    None => {
                        return Err(RecapStateError::CounterType);
                    },
                },
                _ => (0, -2),
            },
            None => (0, -2),
        };
        if counted_rate >= rate {
            return Ok(ManualRecapRateResult { counted_rate, ttl_seconds, allowed: false });
        }
        let next: i64 = counted_rate + 1;
        self.set_string(now_ms, key.as_str(), format_i64(next).as_str(), per_seconds);
        Ok(ManualRecapRateResult { counted_rate: next, ttl_seconds, allowed: true })
    }

    /// Store a `/start` deep-link context.
    pub fn put_start_context(
        &mut self,
        now_ms: i64,
        domain: StartContextDomain,
        token: &str,
        json: &str,
    )
        requires
            old(self).wf(),
            recap_state::deadline_fits(now_ms, keys::START_CONTEXT_TTL_SECONDS),
        ensures
            final(self).wf(),
            final(self)@ == context_stored(old(self)@, now_ms, domain, token@, json@),
    {
        let key: String = domain.key(token);
        self.forget_expired(now_ms);
        self.set_string(now_ms, key.as_str(), json, keys::START_CONTEXT_TTL_SECONDS);
    }

    /// Read a `/start` deep-link context without consuming it.
    pub fn get_start_context(
        &mut self,
        now_ms: i64,
        domain: StartContextDomain,
        token: &str,
    ) -> (r: Option<String>)
        requires
            old(self).wf(),
        ensures
            final(self).wf(),
            final(self)@ == recap_state::live(old(self)@, now_ms),
            text::viewed(r) == recap_state::text_at(
                final(self)@,
                keys::context_key(domain, token@),
            ),
    {
        let key: String = domain.key(token);
        self.raw_string(now_ms, key.as_str())
    }

    /// Whether a forwarded-replay session is open for `user_id`.
    pub fn forwarded_active(&mut self, now_ms: i64, user_id: i64) -> (r: bool)
        requires
            old(self).wf(),
        ensures
            final(self).wf(),
            final(self)@ == recap_state::live(old(self)@, now_ms),
            r == recap_state::session_open(final(self)@, user_id as int),
    {
        let key: String = keys::forwarded_control_key(user_id);
        match self.raw_string(now_ms, key.as_str()) {
            Some(value) => same(value.as_str(), keys::FORWARDED_CONTROL_ACTIVE_VALUE),
            None => false,
        }
    }

    /// Open a forwarded-replay session, discarding the batch of an open one.
    pub fn start_forwarded(&mut self, now_ms: i64, user_id: i64)
        requires
            old(self).wf(),
            recap_state::deadline_fits(now_ms, keys::FORWARDED_SESSION_TTL_SECONDS),
        ensures
            final(self).wf(),
            final(self)@ == session_started(old(self)@, now_ms, user_id as int),
    {
        let already_open: bool = self.forwarded_active(now_ms, user_id);
        if already_open {
            let batch: String = keys::forwarded_batch_key(user_id);
            let _dropped: Option<StoredEntry> = self.take(batch.as_str());
        }
        let control: String = keys::forwarded_control_key(user_id);
        self.set_string(
            now_ms,
            control.as_str(),
            keys::FORWARDED_CONTROL_ACTIVE_VALUE,
            keys::FORWARDED_SESSION_TTL_SECONDS,
        );
    }

    /// Append one forwarded message to the replay batch and keep the session alive.
    pub fn append_forwarded(&mut self, now_ms: i64, user_id: i64, score_ms: i64, json: &str)
        requires
            old(self).wf(),
            recap_state::deadline_fits(now_ms, keys::FORWARDED_SESSION_TTL_SECONDS),
        ensures
            final(self).wf(),
            final(self)@ == forwarded_appended(
                old(self)@,
                now_ms,
                user_id as int,
                score_ms,
                json@,
            ),
    {
        let batch: String = keys::forwarded_batch_key(user_id);
        let control: String = keys::forwarded_control_key(user_id);
        self.forget_expired(now_ms);
        self.add_score(
            batch.as_str(),
            json,
            score_ms,
            ttl_deadline(now_ms, keys::FORWARDED_SESSION_TTL_SECONDS),
        );
        self.refresh_expiry(now_ms, control.as_str(), keys::FORWARDED_SESSION_TTL_SECONDS);
    }

    /// The forwarded batch in replay order: by ascending score, then by message.
    pub fn forwarded_batch(&mut self, now_ms: i64, user_id: i64) -> (out: Vec<String>)
        requires
            old(self).wf(),
        ensures
            final(self).wf(),
            final(self)@ == recap_state::live(old(self)@, now_ms),
            replays(text::texts(out@), scores_at(final(self)@, keys::batch_key(user_id as int))),
    {
        let key: String = keys::forwarded_batch_key(user_id);
        let mut out: Vec<String> = Vec::new();
        match self.raw_zset(now_ms, key.as_str()) {
            Some(members) => {
                let ghost pairs = text_map::scored(members@);
                let mut i: usize = 0;
                while i < members.len()
                    invariant
                        i <= members.len(),
                        out.len() == i,
                        forall|k: int| 0 <= k < i ==> (#[trigger] out@[k])@ == members@[k].1@,
                    decreases members.len() - i,
                {
                    out.push(members[i].1.clone());
                    i = i + 1;
                }
                assert(text::texts(out@) =~= Seq::new(pairs.len(), |k: int| pairs[k].1));
            },
            None => {
                assert(text::texts(out@) =~= Seq::<Seq<char>>::empty());
            },
        }
        out
    }

    /// Cancel an open session. Says whether a session was open.
    pub fn cancel_forwarded(&mut self, now_ms: i64, user_id: i64) -> (r: bool)
        requires
            old(self).wf(),
        ensures
            final(self).wf(),
            r == recap_state::session_open(
                recap_state::live(old(self)@, now_ms),
                user_id as int,
            ),
            final(self)@ == session_cancelled(old(self)@, now_ms, user_id as int),
    {
        if !self.forwarded_active(now_ms, user_id) {
            return false;
        }
        let batch: String = keys::forwarded_batch_key(user_id);
        let control: String = keys::forwarded_control_key(user_id);
        let _batch: Option<StoredEntry> = self.take(batch.as_str());
        let _control: Option<StoredEntry> = self.take(control.as_str());
        true
    }

    /// Remember a message to delete once the session finishes.
    pub fn push_delete_later(&mut self, now_ms: i64, user_id: i64, chat_id: i64, message_id: i32)
        requires
            old(self).wf(),
            recap_state::deadline_fits(now_ms, keys::DELETE_LATER_TTL_SECONDS),
        ensures
            final(self).wf(),
            final(self)@ == later_pushed(old(self)@, now_ms, user_id, chat_id, message_id),
    {
        if !recap_state::is_pushable_delete_later(user_id, chat_id, message_id) {
            return ;
        }
        let member: String = keys::delete_later_member(chat_id, message_id);
        self.push_raw_delete_later_member(now_ms, user_id, member.as_str());
    }

    /// Clear the delete-later list and return its well-formed members.
    pub fn drain_delete_later(&mut self, now_ms: i64, user_id: i64) -> (out: Vec<(i64, i32)>)
        requires
            old(self).wf(),
        ensures
            final(self).wf(),
            final(self)@ == recap_state::live(old(self)@, now_ms).remove(
                keys::later_key(user_id as int),
            ),
            out@ == later_messages(recap_state::live(old(self)@, now_ms), user_id as int),
    {
        let key: String = keys::delete_later_key(user_id);
        self.forget_expired(now_ms);
        match self.take(key.as_str()) {
            Some(entry) => match &entry.value {
                StoredValue::List(members) => recap_state::parse_delete_later_members(members),
                _ => Vec::new(),
            },
            None => Vec::new(),
        }
    }

    /// Add or rescore one automatic-recap queue member. The queue does not expire.
    pub fn auto_recap_zadd(&mut self, now_ms: i64, member: &str, score_ms: i64) -> (r: Result<
        (),
        RecapStateError,
    >)
        requires
            old(self).wf(),
        ensures
            final(self).wf(),
            ({
                let current = recap_state::live(old(self)@, now_ms);
                let key = keys::AUTO_RECAP_QUEUE_KEY@;
                if current.contains_key(key) && !(current[key].value is Scored) {
                    &&& r == Err::<(), RecapStateError>(RecapStateError::QueueType)
                    &&& final(self)@ == current
                } else {
                    &&& r is Ok
                    &&& final(self)@ == recap_state::with_score(
                        current,
                        key,
                        member@,
                        score_ms,
                        i64::MAX,
                    )
                }
            }),
    {
        self.forget_expired(now_ms);
        let wrong_type: bool = match self.entry(keys::AUTO_RECAP_QUEUE_KEY) {
            Some(entry) => match &entry.value {
                StoredValue::Scored(_) => false,
                _ => true,
            },
            None => false,
        };
        if wrong_type {
            return Err(RecapStateError::QueueType);
        }
        self.add_score(keys::AUTO_RECAP_QUEUE_KEY, member, score_ms, i64::MAX);
        Ok(())
    }

    /// Pop the lowest-ranked queue member once something is due.
    pub fn auto_recap_zpop_due(&mut self, clock_ms: i64, now_ms: i64) -> (r: Option<String>)
        requires
            old(self).wf(),
        ensures
            final(self).wf(),
            ({
                let current = recap_state::live(old(self)@, clock_ms);
                let key = keys::AUTO_RECAP_QUEUE_KEY@;
                match scores_at(current, key) {
                    Some(scores) => if some_due(scores, now_ms) {
                        &&& r is Some
                        &&& text_map::lowest(scores, r->0@)
                        &&& final(self)@ == current.insert(
                            key,
                            EntryModel {
                                value: StoredModel::Scored(scores.remove(r->0@)),
                                expires_at_ms: current[key].expires_at_ms,
                            },
                        )
                    } else {
                        r is None && final(self)@ == current
                    },
                    None => r is None && final(self)@ == current,
                }
            }),
    {
        self.forget_expired(clock_ms);
        let ghost current = self@;
        let key: &str = keys::AUTO_RECAP_QUEUE_KEY;
        let members: Vec<(i64, String)> = match self.entry(key) {
            Some(entry) => match &entry.value {
                StoredValue::Scored(scores) => scores.by_score(),
                _ => {
                    return None;
                },
            },
            None => {
                return None;
            },
        };
        let ghost scores = scores_at(current, key@)->0;
        let ghost pairs = text_map::scored(members@);
        if !lists_due(&members, now_ms) {
            proof {
                assert forall|member: Seq<char>| #[trigger] scores.contains_key(member) implies !(0
                    <= scores[member] <= now_ms) by {
                    assert(pairs.contains((scores[member], member)));
                    let k = choose|k: int| 0 <= k < pairs.len() && pairs[k] == (
                        scores[member],
                        member,
                    );
                    assert(members@[k].0 == scores[member]);
                }
            }
            return None;
        }
        proof {
            let k = choose|k: int|
                0 <= k < members@.len() && 0 <= (#[trigger] members@[k]).0 <= now_ms;
            assert(pairs[k] == (members@[k].0, members@[k].1@));
            assert(pairs.contains((members@[k].0, members@[k].1@)));
            assert(scores.contains_key(members@[k].1@));
            text_map::lemma_first_is_lowest(pairs, scores);
        }
        let first: String = members[0].1.clone();
        assert(first@ == pairs[0].1);
        match self.take(key) {
            Some(entry) => {
                let StoredEntry { value, expires_at_ms } = entry;
                match value {
                    StoredValue::Scored(mut left) => {
                        let _score: Option<i64> = left.remove(first.as_str());
                        self.put(key,
                            StoredEntry { value: StoredValue::Scored(left), expires_at_ms });
                        assert(self@ =~= current.insert(
                            key@,
                            EntryModel {
                                value: StoredModel::Scored(scores.remove(first@)),
                                expires_at_ms: current[key@].expires_at_ms,
                            },
                        ));
                        Some(first)
                    },
                    _ => None,
                }
            },
            None => None,
        }
    }

    /// Remove a queue member, if it is there.
    pub fn auto_recap_zrem(&mut self, now_ms: i64, member: &str)
        requires
            old(self).wf(),
        ensures
            final(self).wf(),
            ({
                let current = recap_state::live(old(self)@, now_ms);
                let key = keys::AUTO_RECAP_QUEUE_KEY@;
                final(self)@ == match scores_at(current, key) {
                    Some(scores) => current.insert(
                        key,
                        EntryModel {
                            value: StoredModel::Scored(scores.remove(member@)),
                            expires_at_ms: current[key].expires_at_ms,
                        },
                    ),
                    None => current,
                }
            }),
    {
        self.forget_expired(now_ms);
        let ghost current = self@;
        let key: &str = keys::AUTO_RECAP_QUEUE_KEY;
        match self.take(key) {
            Some(entry) => {
                let StoredEntry { value, expires_at_ms } = entry;
                match value {
                    StoredValue::Scored(mut left) => {
                        let ghost scores = left@;
                        let _score: Option<i64> = left.remove(member);
                        self.put(key,
                            StoredEntry { value: StoredValue::Scored(left), expires_at_ms });
                        assert(self@ =~= current.insert(
                            key@,
                            EntryModel {
                                value: StoredModel::Scored(scores.remove(member@)),
                                expires_at_ms: current[key@].expires_at_ms,
                            },
                        ));
                    },
                    other => {
                        self.put(key, StoredEntry { value: other, expires_at_ms });
                        assert(self@ =~= current);
                    },
                }
            },
            None => {
                assert(self@ =~= current);
            },
        }
    }
}

/// Whether `texts` are the members of a set in replay order.
pub open spec fn replays(texts: Seq<Seq<char>>, scores: Option<Map<Seq<char>, i64>>) -> bool {
    match scores {
        None => texts.len() == 0,
        Some(known) => exists|pairs: Seq<(i64, Seq<char>)>| #[trigger]
            text_map::lists(pairs, known) && texts == Seq::new(pairs.len(), |k: int| pairs[k].1),
    }
}

// ---------------------------------------------------------------------------
// Laws
// ---------------------------------------------------------------------------

/// A callback payload reads back until its lifetime ends, and not from then on.
pub proof fn lemma_callback_reads_back(
    stored: Stored,
    now: i64,
    route: Seq<char>,
    payload: Seq<char>,
    later: i64,
)
    requires
        recap_state::deadline_fits(now, keys::CALLBACK_PAYLOAD_TTL_SECONDS),
    ensures
        recap_state::text_at(
            recap_state::live(callback_stored(stored, now, route, payload), later),
            keys::payload_key(route, keys::wire_hash(payload)),
        ) == if later < recap_state::deadline(now, keys::CALLBACK_PAYLOAD_TTL_SECONDS) {
            Some(payload)
        } else {
            None
        },
{
}

/// A start context reads back until its lifetime ends, and not from then on; the
/// contexts of the other family are untouched.
pub proof fn lemma_start_context_reads_back(
    stored: Stored,
    now: i64,
    domain: StartContextDomain,
    other: StartContextDomain,
    token: Seq<char>,
    other_token: Seq<char>,
    json: Seq<char>,
    later: i64,
)
    requires
        recap_state::deadline_fits(now, keys::START_CONTEXT_TTL_SECONDS),
        domain != other,
    ensures
        recap_state::text_at(
            recap_state::live(context_stored(stored, now, domain, token, json), later),
            keys::context_key(domain, token),
        ) == if later < recap_state::deadline(now, keys::START_CONTEXT_TTL_SECONDS) {
            Some(json)
        } else {
            None
        },
        recap_state::text_at(
            context_stored(stored, now, domain, token, json),
            keys::context_key(other, other_token),
        ) == recap_state::text_at(
            recap_state::live(stored, now),
            keys::context_key(other, other_token),
        ),
{
    keys::lemma_context_keys_apart(token, other_token);
    keys::lemma_context_keys_apart(other_token, token);
}

/// A user's control key is not a batch key.
pub proof fn lemma_session_keys_apart(user_id: int)
    ensures
        keys::control_key(user_id) != keys::batch_key(user_id),
{
    reveal_strlit("/batch");
    assert(keys::batch_key(user_id).len() == keys::control_key(user_id).len() + 6);
}

/// Starting opens a session for two hours; starting over drops what was gathered;
/// cancelling closes it and drops what was gathered; without a session, cancelling
/// changes nothing.
pub proof fn lemma_forwarded_session(stored: Stored, now: i64, user_id: int, later: i64)
    requires
        recap_state::deadline_fits(now, keys::FORWARDED_SESSION_TTL_SECONDS),
    ensures
        recap_state::session_open(
            recap_state::live(session_started(stored, now, user_id), later),
            user_id,
        ) == (later < recap_state::deadline(now, keys::FORWARDED_SESSION_TTL_SECONDS)),
        recap_state::session_open(recap_state::live(stored, now), user_id)
            ==> !session_started(stored, now, user_id).contains_key(keys::batch_key(user_id)),
        !recap_state::session_open(session_cancelled(stored, now, user_id), user_id),
        recap_state::session_open(recap_state::live(stored, now), user_id)
            ==> !session_cancelled(stored, now, user_id).contains_key(keys::batch_key(user_id)),
        !recap_state::session_open(recap_state::live(stored, now), user_id)
            ==> session_cancelled(stored, now, user_id) == recap_state::live(stored, now),
{
    lemma_session_keys_apart(user_id);
}

/// An appended message is in the batch with its score, the other messages stay, and
/// an open session stays open for another two hours.
pub proof fn lemma_forwarded_append(
    stored: Stored,
    now: i64,
    user_id: int,
    score: i64,
    json: Seq<char>,
    later: i64,
)
    requires
        recap_state::deadline_fits(now, keys::FORWARDED_SESSION_TTL_SECONDS),
        recap_state::session_open(recap_state::live(stored, now), user_id),
        now <= later < recap_state::deadline(now, keys::FORWARDED_SESSION_TTL_SECONDS),
        recap_state::live(stored, now).contains_key(keys::batch_key(user_id)) ==> recap_state::live(
            stored,
            now,
        )[keys::batch_key(user_id)].value is Scored,
    ensures
        ({
            let after = recap_state::live(
                forwarded_appended(stored, now, user_id, score, json),
                later,
            );
            let before = scores_at(recap_state::live(stored, now), keys::batch_key(user_id));
            &&& recap_state::session_open(after, user_id)
            &&& scores_at(after, keys::batch_key(user_id)) == Some(
                (match before {
                    Some(scores) => scores,
                    None => Map::empty(),
                }).insert(json, score),
            )
        }),
{
    lemma_session_keys_apart(user_id);
}

proof fn lemma_named_messages_head(member: Seq<char>, members: Seq<Seq<char>>, i: int)
    requires
        0 <= i <= members.len(),
    ensures
        recap_state::named_messages(seq![member] + members, i + 1) == recap_state::named_messages(
            members,
            i,
        ),
    decreases members.len() - i,
{
    let all = seq![member] + members;
    if i < members.len() {
        assert(all[i + 1] == members[i]);
        lemma_named_messages_head(member, members, i + 1);
    }
}

/// A remembered message is drained first, before those remembered earlier, and a
/// second drain finds nothing.
pub proof fn lemma_delete_later_drains(
    stored: Stored,
    now: i64,
    user_id: i64,
    chat_id: i64,
    message_id: i32,
    later: i64,
)
    requires
        recap_state::deadline_fits(now, keys::DELETE_LATER_TTL_SECONDS),
        recap_state::pushable(user_id, chat_id, message_id),
        now <= later < recap_state::deadline(now, keys::DELETE_LATER_TTL_SECONDS),
        recap_state::live(stored, now).contains_key(keys::later_key(user_id as int))
            ==> recap_state::live(stored, now)[keys::later_key(user_id as int)].value is List,
    ensures
        ({
            let pushed = recap_state::live(
                later_pushed(stored, now, user_id, chat_id, message_id),
                later,
            );
            &&& later_messages(pushed, user_id as int) == seq![(chat_id, message_id)]
                + later_messages(recap_state::live(stored, now), user_id as int)
            &&& later_messages(pushed.remove(keys::later_key(user_id as int)), user_id as int)
                == Seq::<(i64, i32)>::empty()
        }),
{
    let key = keys::later_key(user_id as int);
    let current = recap_state::live(stored, now);
    let member = keys::later_member(chat_id as int, message_id as int);
    keys::lemma_later_member_parses(chat_id, message_id);
    let members = if current.contains_key(key) {
        current[key].value->List_0
    } else {
        Seq::empty()
    };
    let all = seq![member] + members;
    assert(all[0] == member);
    lemma_named_messages_head(member, members, 0);
    assert(recap_state::named_messages(all, 0) == seq![(chat_id, message_id)]
        + recap_state::named_messages(members, 0));
    assert(recap_state::named_messages(Seq::<Seq<char>>::empty(), 0) =~= Seq::<
        (i64, i32),
    >::empty());
}

/// Whether the command limiter allows and has then counted `counted`.
pub open spec fn allows_with(
    outcome: Result<ManualRecapRateResult, RecapStateError>,
    counted: int,
) -> bool {
    match outcome {
        Ok(result) => result.allowed && result.counted_rate == counted,
        Err(_) => false,
    }
}

/// Whether the command limiter refuses.
pub open spec fn refuses(outcome: Result<ManualRecapRateResult, RecapStateError>) -> bool {
    match outcome {
        Ok(result) => !result.allowed,
        Err(_) => false,
    }
}

/// The command that exhausts the rate is the last one allowed until its window ends,
/// and where nothing counts the first command is allowed.
pub proof fn lemma_rate_window(
    stored: Stored,
    now: i64,
    chat_id: int,
    rate: i64,
    per_seconds: i64,
    later: i64,
)
    requires
        per_seconds > 0,
        rate > 0,
        recap_state::deadline_fits(now, per_seconds),
        now <= later,
    ensures
        !recap_state::live(stored, now).contains_key(keys::rate_key(chat_id)) ==> allows_with(
            rate_checked(stored, now, chat_id, rate, per_seconds),
            1,
        ),
        allows_with(rate_checked(stored, now, chat_id, rate, per_seconds), rate as int) && later
            < recap_state::deadline(now, per_seconds) ==> refuses(
            rate_checked(
                rate_counted(stored, now, chat_id, rate, per_seconds),
                later,
                chat_id,
                rate,
                per_seconds,
            ),
        ),
        allows_with(rate_checked(stored, now, chat_id, rate, per_seconds), rate as int) && later
            >= recap_state::deadline(now, per_seconds) ==> allows_with(
            rate_checked(
                rate_counted(stored, now, chat_id, rate, per_seconds),
                later,
                chat_id,
                rate,
                per_seconds,
            ),
            1,
        ),
{
    numeral::lemma_decimal_reads_back(rate as int);
}

/// Popping takes a due member with the lowest rank out of the queue; what is
/// scheduled later than `now` alone stays.
pub proof fn lemma_queue_pop(scores: Map<Seq<char>, i64>, member: Seq<char>, now: i64)
    requires
        some_due(scores, now),
        text_map::lowest(scores, member),
    ensures
        scores[member] <= now,
        !scores.remove(member).contains_key(member),
        forall|other: Seq<char>|
            other != member && scores.contains_key(other) ==> #[trigger] scores.remove(
                member,
            ).contains_key(other),
{
    let due = choose|due: Seq<char>| #[trigger]
        scores.contains_key(due) && 0 <= scores[due] <= now;
    if due != member {
        assert(text_map::ranks_before((scores[member], member), (scores[due], due)));
    }
}

} // verus!
