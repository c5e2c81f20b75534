//! Recap state: callback routing, and an in-memory store with Redis ordering and
//! expiry rules.
//!
//! Every operation of the store takes the instant at which it happens, in Unix
//! milliseconds, and first forgets what has expired by then.

use vstd::prelude::*;

use crate::redis::keys;
use crate::text::{self, same};
use crate::text_map::{self, TextMap};

verus! {

// ---------------------------------------------------------------------------
// Time
// ---------------------------------------------------------------------------

/// A source of Unix milliseconds.
pub trait Clock {
    /// Milliseconds since the Unix epoch.
    fn now_ms(&self) -> i64;
}

/// `chrono::Utc::now().timestamp_millis()`: the wall clock, of which nothing is stated.
#[verifier::external_body]
pub(crate) fn wall_clock_ms() -> (now: i64) {
    chrono::Utc::now().timestamp_millis()
}

/// The wall clock.
#[derive(Clone, Copy, Debug)]
pub struct SystemClock;

impl Clock for SystemClock {
    fn now_ms(&self) -> i64 {
        wall_clock_ms()
    }
}

/// A clock that is moved by hand.
#[derive(Debug)]
pub struct TestClock {
    pub now_ms: i64,
}

impl TestClock {
    /// A clock frozen at `start_ms`.
    pub fn new(start_ms: i64) -> (r: Self)
        ensures
            r.now_ms == start_ms,
    {
        TestClock { now_ms: start_ms }
    }

    /// Move time forward by `delta_ms`, wrapping at the numeric bound.
    pub fn advance_ms(&mut self, delta_ms: i64)
        ensures
            final(self).now_ms == old(self).now_ms.wrapping_add(delta_ms),
    {
        self.now_ms = self.now_ms.wrapping_add(delta_ms);
    }
}

impl Clock for TestClock {
    fn now_ms(&self) -> (now: i64)
        ensures
            now == self.now_ms,
    {
        self.now_ms
    }
}

// ---------------------------------------------------------------------------
// Errors and results
// ---------------------------------------------------------------------------

/// Why a state operation failed.
#[derive(Debug, Clone, Copy, PartialEq, Eq, Structural)]
pub enum RecapStateError {
    /// The command counter does not hold an integer.
    CounterType,
    /// The automatic recap queue is not a sorted set.
    QueueType,
    /// The callback route is not a registered literal.
    UnregisteredRoute,
}

pub open spec fn state_error_message(error: RecapStateError) -> Seq<char> {
    match error {
        RecapStateError::CounterType => "recap Redis GET failed (TypeError)"@,
        RecapStateError::QueueType => "recap Redis ZADD failed (TypeError)"@,
        RecapStateError::UnregisteredRoute => "callback route is not registered"@,
    }
}

impl RecapStateError {
    /// A fixed sentence that quotes no stored value.
    pub fn message(self) -> (out: &'static str)
        ensures
            out@ == state_error_message(self),
    {
        match self {
            RecapStateError::CounterType => "recap Redis GET failed (TypeError)",
            RecapStateError::QueueType => "recap Redis ZADD failed (TypeError)",
            RecapStateError::UnregisteredRoute => "callback route is not registered",
        }
    }
}

/// Delete-later members, with what went wrong when their key was cleared.
#[derive(Debug)]
pub struct DeleteLaterDrain {
    pub messages: Vec<(i64, i32)>,
    pub delete_error: Option<String>,
}

/// The outcome of the manual-recap command rate check.
#[derive(Clone, Copy, Debug, Eq, PartialEq, Structural)]
pub struct ManualRecapRateResult {
    pub counted_rate: i64,
    pub ttl_seconds: i64,
    pub allowed: bool,
}

// ---------------------------------------------------------------------------
// Callback routing
// ---------------------------------------------------------------------------

/// Outcome of mapping an inline-button wire value back to a handler.
#[derive(Debug, PartialEq, Eq)]
pub enum CallbackResolution {
    /// The wire value was not exactly two segments.
    Malformed,
    /// The route hash matches none of the registered literals.
    UnknownRoute,
    /// The route is registered but no handler is bound to it.
    MissingHandler { route: &'static str },
    /// A bound handler should run. The payload is empty when it has expired: the
    /// handler decides how to react.
    Dispatch { route: &'static str, action_hash: String, payload_json: String },
}

/// What a wire value asks for, before the payload is looked up.
#[derive(Debug, PartialEq, Eq)]
pub enum CallbackRoute {
    Malformed,
    UnknownRoute,
    MissingHandler { route: &'static str },
    /// The payload of `action_hash` under `route` is wanted.
    Lookup { route: &'static str, action_hash: String },
}

/// The model of a [`CallbackRoute`].
pub enum RouteModel {
    Malformed,
    UnknownRoute,
    MissingHandler { route: Seq<char> },
    Lookup { route: Seq<char>, action_hash: Seq<char> },
}

impl View for CallbackRoute {
    type V = RouteModel;

    open spec fn view(&self) -> RouteModel {
        match *self {
            CallbackRoute::Malformed => RouteModel::Malformed,
            CallbackRoute::UnknownRoute => RouteModel::UnknownRoute,
            CallbackRoute::MissingHandler { route } => RouteModel::MissingHandler { route: route@ },
            CallbackRoute::Lookup { route, action_hash } => RouteModel::Lookup {
                route: route@,
                action_hash: action_hash@,
            },
        }
    }
}

/// The model of a [`CallbackResolution`].
pub enum ResolutionModel {
    Malformed,
    UnknownRoute,
    MissingHandler { route: Seq<char> },
    Dispatch { route: Seq<char>, action_hash: Seq<char>, payload_json: Seq<char> },
}

impl View for CallbackResolution {
    type V = ResolutionModel;

    open spec fn view(&self) -> ResolutionModel {
        match *self {
            CallbackResolution::Malformed => ResolutionModel::Malformed,
            CallbackResolution::UnknownRoute => ResolutionModel::UnknownRoute,
            CallbackResolution::MissingHandler { route } => ResolutionModel::MissingHandler {
                route: route@,
            },
            CallbackResolution::Dispatch { route, action_hash, payload_json } =>
                ResolutionModel::Dispatch {
                    route: route@,
                    action_hash: action_hash@,
                    payload_json: payload_json@,
                },
        }
    }
}

/// The registered route that a hash resolves to: the first with that hash.
pub open spec fn resolved_route(hash: Seq<char>) -> Option<Seq<char>> {
    if exists|i: int| keys::first_with_hash(hash, i) {
        Some(keys::registered_routes()[choose|i: int| keys::first_with_hash(hash, i)])
    } else {
        None
    }
}

/// What `wire` asks for when the routes of `bound` have handlers.
pub open spec fn routed(bound: Set<Seq<char>>, wire: Seq<char>) -> RouteModel {
    match keys::decoded_wire(wire) {
        None => RouteModel::Malformed,
        Some((route_hash, action_hash)) => match resolved_route(route_hash) {
            None => RouteModel::UnknownRoute,
            Some(route) => if bound.contains(route) {
                RouteModel::Lookup { route, action_hash }
            } else {
                RouteModel::MissingHandler { route }
            },
        },
    }
}

/// The resolution once the payload was looked up: an expired payload reads as empty.
pub open spec fn resolved(route: RouteModel, payload: Option<Seq<char>>) -> ResolutionModel {
    match route {
        RouteModel::Malformed => ResolutionModel::Malformed,
        RouteModel::UnknownRoute => ResolutionModel::UnknownRoute,
        RouteModel::MissingHandler { route } => ResolutionModel::MissingHandler { route },
        RouteModel::Lookup { route, action_hash } => ResolutionModel::Dispatch {
            route,
            action_hash,
            payload_json: match payload {
                Some(found) => found,
                None => Seq::empty(),
            },
        },
    }
}

proof fn lemma_resolved_route(hash: Seq<char>, i: int)
    requires
        keys::first_with_hash(hash, i),
    ensures
        resolved_route(hash) == Some(keys::registered_routes()[i]),
{
    let j = choose|j: int| keys::first_with_hash(hash, j);
    assert(keys::first_with_hash(hash, j));
    if i < j {
        assert(keys::wire_hash(keys::registered_routes()[i]) != hash);
    }
    if j < i {
        assert(keys::wire_hash(keys::registered_routes()[j]) != hash);
    }
}

/// The callback routes that have a handler bound.
#[derive(Debug)]
pub struct CallbackRouteRegistry {
    bound: Vec<&'static str>,
}

impl View for CallbackRouteRegistry {
    type V = Set<Seq<char>>;

    closed spec fn view(&self) -> Set<Seq<char>> {
        Set::new(|route: Seq<char>| exists|i: int| bound_at(self.bound@, route, i))
    }
}

/// Whether `bound[i]` is `route`.
pub open spec fn bound_at(bound: Seq<&'static str>, route: Seq<char>, i: int) -> bool {
    0 <= i < bound.len() && bound[i]@ == route
}

impl Default for CallbackRouteRegistry {
    fn default() -> (r: Self)
        ensures
            r@ == Set::<Seq<char>>::empty(),
    {
        CallbackRouteRegistry::new()
    }
}

impl CallbackRouteRegistry {
    /// An empty registry.
    pub fn new() -> (r: Self)
        ensures
            r@ == Set::<Seq<char>>::empty(),
    {
        let r = CallbackRouteRegistry { bound: Vec::new() };
        assert(r@ =~= Set::<Seq<char>>::empty());
        r
    }

    /// A registry with every registered literal bound.
    pub fn with_all_registered_routes() -> (r: Self)
        ensures
            r@ == keys::registered_routes().to_set(),
    {
        let routes: [&'static str; 9] = keys::REGISTERED_CALLBACK_ROUTES;
        let mut r = CallbackRouteRegistry::new();
        let mut i: usize = 0;
        assert(r@ =~= keys::registered_routes().take(0).to_set());
        while i < 9
            invariant
                i <= 9,
                routes == keys::REGISTERED_CALLBACK_ROUTES,
                r@ == keys::registered_routes().take(i as int).to_set(),
            decreases 9 - i,
        {
            let ghost before = r@;
            let ghost done = keys::registered_routes().take(i as int);
            let ghost next = keys::registered_routes().take(i + 1);
            let route: &'static str = routes[i];
            assert(keys::registered_routes()[i as int] == route@);
            r.remember(route);
            i = i + 1;
            assert(next =~= done.push(route@));
            assert(r@ =~= next.to_set()) by {
                assert forall|x: Seq<char>| before.insert(route@).contains(x)
                    <==> next.contains(x) by {
                    if done.contains(x) {
                        let k = choose|k: int| 0 <= k < done.len() && done[k] == x;
                        assert(next[k] == x);
                    }
                    if x == route@ {
                        assert(next[i - 1] == x);
                    }
                    if next.contains(x) {
                        let k = choose|k: int| 0 <= k < next.len() && next[k] == x;
                        if k < i - 1 {
                            assert(done[k] == x);
                        }
                    }
                }
            }
        }
        assert(keys::registered_routes().take(9) =~= keys::registered_routes());
        r
    }

    fn remember(&mut self, route: &'static str)
        ensures
            final(self)@ == old(self)@.insert(route@),
    {
        let ghost before = self.bound@;
        self.bound.push(route);
        let ghost after = self.bound@;
        assert forall|x: Seq<char>| self@.contains(x)
            <==> old(self)@.insert(route@).contains(x) by {
            if self@.contains(x) {
                let i = choose|i: int| bound_at(after, x, i);
                if i < before.len() {
                    assert(bound_at(before, x, i));
                }
            }
            if old(self)@.contains(x) {
                let i = choose|i: int| bound_at(before, x, i);
                assert(bound_at(after, x, i));
            }
            if x == route@ {
                assert(bound_at(after, x, before.len() as int));
            }
        }
        assert(self@ =~= old(self)@.insert(route@));
    }

    /// Bind a handler to a registered route literal.
    pub fn bind(&mut self, route: &str) -> (r: Result<&'static str, RecapStateError>)
        ensures
            match r {
                Ok(literal) => literal@ == route@ && keys::registered_routes().contains(route@)
                    && final(self)@ == old(self)@.insert(route@),
                Err(error) => error == RecapStateError::UnregisteredRoute
                    && !keys::registered_routes().contains(route@) && final(self)@ == old(self)@,
            },
    {
        let routes: [&'static str; 9] = keys::REGISTERED_CALLBACK_ROUTES;
        let mut i: usize = 0;
        while i < 9
            invariant
                i <= 9,
                routes == keys::REGISTERED_CALLBACK_ROUTES,
                self@ == old(self)@,
                forall|k: int| 0 <= k < i ==> keys::registered_routes()[k] != route@,
            decreases 9 - i,
        {
            let literal: &'static str = routes[i];
            assert(keys::registered_routes()[i as int] == literal@);
            if same(literal, route) {
                self.remember(literal);
                return Ok(literal);
            }
            i = i + 1;
        }
        Err(RecapStateError::UnregisteredRoute)
    }

    /// Whether `route` has a handler bound.
    pub fn is_bound(&self, route: &str) -> (r: bool)
        ensures
            r == self@.contains(route@),
    {
        let mut i: usize = 0;
        while i < self.bound.len()
            invariant
                i <= self.bound.len(),
                forall|k: int| 0 <= k < i ==> !bound_at(self.bound@, route@, k),
            decreases self.bound.len() - i,
        {
            if same(self.bound[i], route) {
                assert(bound_at(self.bound@, route@, i as int));
                return true;
            }
            i = i + 1;
        }
        false
    }

    /// What an inline-button wire value asks for.
    pub fn route(&self, wire: &str) -> (r: CallbackRoute)
        ensures
            r@ == routed(self@, wire@),
    {
        match keys::decode_callback_wire(wire) {
            None => CallbackRoute::Malformed,
            Some((route_hash, action_hash)) => match keys::resolve_callback_route(route_hash) {
                None => {
                    proof {
                        assert(resolved_route(route_hash@) is None) by {
                            assert(forall|i: int| !keys::first_with_hash(route_hash@, i));
                        }
                    }
                    CallbackRoute::UnknownRoute
                },
                Some(route) => {
                    proof {
                        let i = choose|i: int| #[trigger]
                            keys::first_with_hash(route_hash@, i) && keys::registered_routes()[i]
                                == route@;
                        lemma_resolved_route(route_hash@, i);
                    }
                    if self.is_bound(route) {
                        CallbackRoute::Lookup { route, action_hash: action_hash.to_owned() }
                    } else {
                        CallbackRoute::MissingHandler { route }
                    }
                },
            },
        }
    }

    /// Map an inline-button wire value onto a handler decision, with the payloads of
    /// an in-memory store.
    pub fn resolve(
        &self,
        store: &mut InMemoryRecapStateStore,
        now_ms: i64,
        wire: &str,
    ) -> (r: CallbackResolution)
        requires
            old(store).wf(),
        ensures
            final(store).wf(),
            r@ == resolved(
                routed(self@, wire@),
                match routed(self@, wire@) {
                    RouteModel::Lookup { route, action_hash } => text_at(
                        live(old(store)@, now_ms),
                        keys::payload_key(route, action_hash),
                    ),
                    _ => None,
                },
            ),
            final(store)@ == match routed(self@, wire@) {
                RouteModel::Lookup { .. } => live(old(store)@, now_ms),
                _ => old(store)@,
            },
    {
        match self.route(wire) {
            CallbackRoute::Lookup { route, action_hash } => {
                let payload: Option<String> = store.get_callback(
                    now_ms,
                    route,
                    action_hash.as_str(),
                );
                dispatch(CallbackRoute::Lookup { route, action_hash }, payload)
            },
            other => dispatch(other, None),
        }
    }
}

/// Complete a routed wire value with the payload that was looked up for it.
pub fn dispatch(route: CallbackRoute, payload: Option<String>) -> (r: CallbackResolution)
    ensures
        r@ == resolved(route@, text::viewed(payload)),
{
    match route {
        CallbackRoute::Malformed => CallbackResolution::Malformed,
        CallbackRoute::UnknownRoute => CallbackResolution::UnknownRoute,
        CallbackRoute::MissingHandler { route } => CallbackResolution::MissingHandler { route },
        CallbackRoute::Lookup { route, action_hash } => {
            let payload_json: String = match payload {
                Some(found) => found,
                None => {
                    let none: String = String::new();
                    assert(none@ =~= Seq::<char>::empty());
                    none
                },
            };
            CallbackResolution::Dispatch { route, action_hash, payload_json }
        },
    }
}

// ---------------------------------------------------------------------------
// The in-memory store
// ---------------------------------------------------------------------------

#[derive(Debug)]
pub enum StoredValue {
    Text(String),
    /// Members with their scores.
    Scored(TextMap<i64>),
    /// Members, head first.
    List(Vec<String>),
}

/// The model of a stored value.
pub enum StoredModel {
    Text(Seq<char>),
    Scored(Map<Seq<char>, i64>),
    List(Seq<Seq<char>>),
}

#[derive(Debug)]
pub struct StoredEntry {
    pub value: StoredValue,
    pub expires_at_ms: i64,
}

/// The model of an entry.
pub struct EntryModel {
    pub value: StoredModel,
    pub expires_at_ms: i64,
}

impl StoredEntry {
    pub open spec fn model(&self) -> EntryModel {
        EntryModel {
            value: match self.value {
                StoredValue::Text(text) => StoredModel::Text(text@),
                StoredValue::Scored(scores) => StoredModel::Scored(scores@),
                StoredValue::List(members) => StoredModel::List(text::texts(members@)),
            },
            expires_at_ms: self.expires_at_ms,
        }
    }

    pub open spec fn wf(&self) -> bool {
        match self.value {
            StoredValue::Scored(scores) => scores.wf(),
            _ => true,
        }
    }
}

/// What is stored, and until when.
pub type Stored = Map<Seq<char>, EntryModel>;

/// What is left at `now`: an entry is gone from the instant it expires.
pub open spec fn live(stored: Stored, now: i64) -> Stored {
    Map::new(
        |key: Seq<char>| stored.contains_key(key) && now < stored[key].expires_at_ms,
        |key: Seq<char>| stored[key],
    )
}

/// The instant at which something stored at `now` for `ttl_seconds` expires.
pub open spec fn deadline(now: i64, ttl_seconds: i64) -> int {
    now + ttl_seconds * 1_000
}

/// Whether that instant is representable.
pub open spec fn deadline_fits(now: i64, ttl_seconds: i64) -> bool {
    i64::MIN <= ttl_seconds * 1_000 <= i64::MAX && i64::MIN <= deadline(now, ttl_seconds)
        <= i64::MAX
}

/// The text stored at `key`.
pub open spec fn text_at(stored: Stored, key: Seq<char>) -> Option<Seq<char>> {
    if stored.contains_key(key) {
        match stored[key].value {
            StoredModel::Text(text) => Some(text),
            _ => None,
        }
    } else {
        None
    }
}

/// `stored` with a text set for `ttl_seconds`.
pub open spec fn with_text(
    stored: Stored,
    now: i64,
    key: Seq<char>,
    value: Seq<char>,
    ttl_seconds: i64,
) -> Stored {
    stored.insert(
        key,
        EntryModel {
            value: StoredModel::Text(value),
            expires_at_ms: deadline(now, ttl_seconds) as i64,
        },
    )
}

/// `stored` with the expiry of `key` moved, where the key exists.
pub open spec fn refreshed(stored: Stored, now: i64, key: Seq<char>, ttl_seconds: i64) -> Stored {
    if stored.contains_key(key) {
        stored.insert(
            key,
            EntryModel {
                value: stored[key].value,
                expires_at_ms: deadline(now, ttl_seconds) as i64,
            },
        )
    } else {
        stored
    }
}

/// `stored` with `member` pushed to the head of the list at `key`.
pub open spec fn with_head(
    stored: Stored,
    now: i64,
    key: Seq<char>,
    member: Seq<char>,
    ttl_seconds: i64,
) -> Stored {
    let value = if stored.contains_key(key) {
        stored[key].value
    } else {
        StoredModel::List(Seq::empty())
    };
    stored.insert(
        key,
        EntryModel {
            value: match value {
                StoredModel::List(members) => StoredModel::List(seq![member] + members),
                other => other,
            },
            expires_at_ms: deadline(now, ttl_seconds) as i64,
        },
    )
}

/// `stored` with `member` scored in the set at `key`.
pub open spec fn with_score(
    stored: Stored,
    key: Seq<char>,
    member: Seq<char>,
    score: i64,
    expires_at_ms: i64,
) -> Stored {
    let value = if stored.contains_key(key) {
        stored[key].value
    } else {
        StoredModel::Scored(Map::empty())
    };
    stored.insert(
        key,
        EntryModel {
            value: match value {
                StoredModel::Scored(scores) => StoredModel::Scored(scores.insert(member, score)),
                other => other,
            },
            expires_at_ms,
        },
    )
}

/// The messages that well-formed delete-later members name, from `i` on.
pub open spec fn named_messages(members: Seq<Seq<char>>, i: int) -> Seq<(i64, i32)>
    decreases members.len() - i,
{
    if i < 0 || i >= members.len() {
        Seq::empty()
    } else {
        match keys::parsed_member(members[i]) {
            Some(message) => seq![message] + named_messages(members, i + 1),
            None => named_messages(members, i + 1),
        }
    }
}

/// Whether a forwarded session is open: only the literal `1` opens one.
pub open spec fn session_open(stored: Stored, user_id: int) -> bool {
    text_at(stored, keys::control_key(user_id)) == Some(keys::FORWARDED_CONTROL_ACTIVE_VALUE@)
}

/// An in-memory recap state with Redis ordering and expiry rules.
#[derive(Debug)]
pub struct InMemoryRecapStateStore {
    entries: TextMap<StoredEntry>,
}

impl View for InMemoryRecapStateStore {
    type V = Stored;

    closed spec fn view(&self) -> Stored {
        Map::new(
            |key: Seq<char>| self.entries@.contains_key(key),
            |key: Seq<char>| self.entries@[key].model(),
        )
    }
}

/// The messages of well-formed delete-later members, in order.
pub fn parse_delete_later_members(members: &Vec<String>) -> (out: Vec<(i64, i32)>)
    ensures
        out@ == named_messages(text::texts(members@), 0),
{
    let ghost all = text::texts(members@);
    let mut out: Vec<(i64, i32)> = Vec::new();
    let mut i: usize = 0;
    while i < members.len()
        invariant
            i <= members.len(),
            all == text::texts(members@),
            out@ + named_messages(all, i as int) == named_messages(all, 0),
        decreases members.len() - i,
    {
        let ghost before = out@;
        let ghost rest = named_messages(all, i as int);
        assert(all[i as int] == members@[i as int]@);
        match keys::parse_delete_later_member(members[i].as_str()) {
            Some(message) => {
                out.push(message);
            },
            None => {},
        }
        i = i + 1;
        assert(out@ + named_messages(all, i as int) =~= before + rest);
    }
    assert(out@ =~= named_messages(all, 0));
    out
}

/// Whether a message can be recorded for later deletion at all.
pub open spec fn pushable(user_id: i64, chat_id: i64, message_id: i32) -> bool {
    user_id != 0 && chat_id != 0 && message_id != 0
}

pub fn is_pushable_delete_later(user_id: i64, chat_id: i64, message_id: i32) -> (r: bool)
    ensures
        r == pushable(user_id, chat_id, message_id),
{
    user_id != 0 && chat_id != 0 && message_id != 0
}

impl InMemoryRecapStateStore {
    pub closed spec fn wf(&self) -> bool {
        &&& self.entries.wf()
        &&& forall|key: Seq<char>| #[trigger]
            self.entries@.contains_key(key) ==> self.entries@[key].wf()
    }

    /// An empty store.
    pub fn new() -> (r: Self)
        ensures
            r.wf(),
            r@ == Map::<Seq<char>, EntryModel>::empty(),
    {
        let r = InMemoryRecapStateStore { entries: TextMap::new() };
        assert(r@ =~= Map::<Seq<char>, EntryModel>::empty());
        r
    }

    pub(crate) fn put(&mut self, key: &str, entry: StoredEntry)
        requires
            old(self).wf(),
            entry.wf(),
        ensures
            final(self).wf(),
            final(self)@ == old(self)@.insert(key@, entry.model()),
    {
        self.entries.insert(key, entry);
        assert(self@ =~= old(self)@.insert(key@, entry.model()));
    }

    pub(crate) fn take(&mut self, key: &str) -> (r: Option<StoredEntry>)
        requires
            old(self).wf(),
        ensures
            final(self).wf(),
            final(self)@ == old(self)@.remove(key@),
            match r {
                Some(entry) => entry.wf() && old(self)@.contains_key(key@) && entry.model()
                    == old(self)@[key@],
                None => !old(self)@.contains_key(key@),
            },
    {
        let r: Option<StoredEntry> = self.entries.remove(key);
        assert(self@ =~= old(self)@.remove(key@));
        r
    }

    pub(crate) fn entry(&self, key: &str) -> (r: Option<&StoredEntry>)
        requires
            self.wf(),
        ensures
            match r {
                Some(entry) => entry.wf() && self@.contains_key(key@) && entry.model()
                    == self@[key@],
                None => !self@.contains_key(key@),
            },
    {
        self.entries.get(key)
    }

    /// Forget what has expired by `now_ms`.
    pub fn forget_expired(&mut self, now_ms: i64)
        requires
            old(self).wf(),
        ensures
            final(self).wf(),
            final(self)@ == live(old(self)@, now_ms),
    {
        let ghost all = self@;
        let mut gone: Vec<String> = Vec::new();
        let mut i: usize = 0;
        proof {
            self.entries.lemma_rows();
        }
        while i < self.entries.len()
            invariant
                i <= self.entries.size(),
                self.wf(),
                self@ == all,
                self@ == old(self)@,
                forall|key: Seq<char>| #[trigger]
                    text::texts(gone@).contains(key) <==> exists|k: int|
                        0 <= k < i && (#[trigger] self.entries.row(k)).0 == key && now_ms
                            >= self.entries.row(k).1.expires_at_ms,
            decreases self.entries.size() - i,
        {
            let ghost before = text::texts(gone@);
            let entry: &StoredEntry = self.entries.value_at(i);
            if now_ms >= entry.expires_at_ms {
                let key: String = self.entries.key_at(i);
                gone.push(key);
                assert(text::texts(gone@) =~= before.push(key@));
                assert forall|other: Seq<char>| #[trigger]
                    text::texts(gone@).contains(other) <==> exists|k: int|
                        0 <= k < i + 1 && (#[trigger] self.entries.row(k)).0 == other && now_ms
                            >= self.entries.row(k).1.expires_at_ms by {
                    if text::texts(gone@).contains(other) {
                        let at = choose|at: int|
                            0 <= at < text::texts(gone@).len() && text::texts(gone@)[at] == other;
                        if at < before.len() {
                            assert(before[at] == other);
                            assert(before.contains(other));
                            let k = choose|k: int|
                                0 <= k < i && (#[trigger] self.entries.row(k)).0 == other && now_ms
                                    >= self.entries.row(k).1.expires_at_ms;
                            assert(self.entries.row(k).0 == other);
                        } else {
                            assert(self.entries.row(i as int).0 == other);
                        }
                    }
                    if exists|k: int|
                        0 <= k < i + 1 && (#[trigger] self.entries.row(k)).0 == other && now_ms
                            >= self.entries.row(k).1.expires_at_ms {
                        let k = choose|k: int|
                            0 <= k < i + 1 && (#[trigger] self.entries.row(k)).0 == other && now_ms
                                >= self.entries.row(k).1.expires_at_ms;
                        if k < i {
                            assert(before.contains(other));
                            let at = choose|at: int| 0 <= at < before.len() && before[at] == other;
                            assert(text::texts(gone@)[at] == other);
                        } else {
                            assert(text::texts(gone@)[before.len() as int] == other);
                        }
                    }
                }
            }
            i = i + 1;
        }
        let ghost dead = text::texts(gone@);
        proof {
            self.entries.lemma_rows();
            assert forall|key: Seq<char>| #[trigger] dead.contains(key) <==> all.contains_key(key)
                && now_ms >= all[key].expires_at_ms by {
                if dead.contains(key) {
                    let k = choose|k: int|
                        0 <= k < i && (#[trigger] self.entries.row(k)).0 == key && now_ms
                            >= self.entries.row(k).1.expires_at_ms;
                    assert(self.entries.row(k).0 == key);
                }
                if all.contains_key(key) && now_ms >= all[key].expires_at_ms {
                    assert(self.entries@.contains_key(key));
                    let k = choose|k: int|
                        0 <= k < self.entries.size() && (#[trigger] self.entries.row(k)).0 == key;
                    assert(self.entries.row(k).0 == key);
                }
            }
        }
        let mut j: usize = 0;
        assert(self@ =~= all.remove_keys(dead.take(0).to_set()));
        while j < gone.len()
            invariant
                j <= gone.len(),
                self.wf(),
                dead == text::texts(gone@),
                self@ == all.remove_keys(dead.take(j as int).to_set()),
            decreases gone.len() - j,
        {
            let ghost done = dead.take(j as int);
            let ghost next = dead.take(j + 1);
            assert(dead[j as int] == gone@[j as int]@);
            let _entry: Option<StoredEntry> = self.take(gone[j].as_str());
            j = j + 1;
            assert(next =~= done.push(dead[j - 1]));
            assert(self@ =~= all.remove_keys(next.to_set())) by {
                assert forall|key: Seq<char>| next.contains(key) <==> done.contains(key) || key
                    == dead[j - 1] by {
                    if done.contains(key) {
                        let k = choose|k: int| 0 <= k < done.len() && done[k] == key;
                        assert(next[k] == key);
                    }
                    if key == dead[j - 1] {
                        assert(next[j - 1] == key);
                    }
                    if next.contains(key) {
                        let k = choose|k: int| 0 <= k < next.len() && next[k] == key;
                        if k < j - 1 {
                            assert(done[k] == key);
                        }
                    }
                }
            }
        }
        assert(dead.take(j as int) =~= dead);
        assert(self@ =~= live(all, now_ms)) by {
            assert forall|key: Seq<char>| self@.contains_key(key) <==> live(
                all,
                now_ms,
            ).contains_key(key) by {
                assert(dead.to_set().contains(key) <==> dead.contains(key));
            }
        }
    }

    /// Every live key, sorted.
    pub fn keys(&mut self, now_ms: i64) -> (out: Vec<String>)
        requires
            old(self).wf(),
        ensures
            final(self).wf(),
            final(self)@ == live(old(self)@, now_ms),
            forall|i: int, j: int|
                0 <= i < j < out@.len() ==> text::before((#[trigger] out@[i])@, (
                #[trigger] out@[j])@),
            forall|key: Seq<char>| #[trigger]
                text::texts(out@).contains(key) <==> final(self)@.contains_key(key),
    {
        self.forget_expired(now_ms);
        let mut marks: TextMap<i64> = TextMap::new();
        let mut i: usize = 0;
        proof {
            self.entries.lemma_rows();
        }
        while i < self.entries.len()
            invariant
                i <= self.entries.size(),
                self.wf(),
                self@ == live(old(self)@, now_ms),
                marks.wf(),
                forall|key: Seq<char>| #[trigger]
                    marks@.contains_key(key) ==> marks@[key] == 0,
                forall|key: Seq<char>| #[trigger]
                    marks@.contains_key(key) <==> exists|k: int|
                        0 <= k < i && (#[trigger] self.entries.row(k)).0 == key,
            decreases self.entries.size() - i,
        {
            let ghost before = marks@;
            let key: String = self.entries.key_at(i);
            marks.insert(key.as_str(), 0);
            assert forall|other: Seq<char>| #[trigger] marks@.contains_key(other)
                <==> exists|k: int|
                0 <= k < i + 1 && (#[trigger] self.entries.row(k)).0 == other by {
                if marks@.contains_key(other) {
                    if other == key@ {
                        assert(self.entries.row(i as int).0 == other);
                    } else {
                        assert(before.contains_key(other));
                        let k = choose|k: int|
                            0 <= k < i && (#[trigger] self.entries.row(k)).0 == other;
                        assert(self.entries.row(k).0 == other);
                    }
                }
                if exists|k: int| 0 <= k < i + 1 && (#[trigger] self.entries.row(k)).0 == other {
                    let k = choose|k: int|
                        0 <= k < i + 1 && (#[trigger] self.entries.row(k)).0 == other;
                    if k < i {
                        assert(before.contains_key(other));
                    }
                }
            }
            i = i + 1;
        }
        let ranked: Vec<(i64, String)> = marks.by_score();
        let ghost pairs = text_map::scored(ranked@);
        let mut out: Vec<String> = Vec::new();
        let mut j: usize = 0;
        while j < ranked.len()
            invariant
                j <= ranked.len(),
                out.len() == j,
                forall|k: int| 0 <= k < j ==> (#[trigger] out@[k])@ == ranked@[k].1@,
            decreases ranked.len() - j,
        {
            out.push(ranked[j].1.clone());
            j = j + 1;
        }
        proof {
            self.entries.lemma_rows();
            assert forall|a: int, b: int| 0 <= a < b < out@.len() implies text::before(
                (#[trigger] out@[a])@,
                (#[trigger] out@[b])@,
            ) by {
                assert(text_map::ranks_before(pairs[a], pairs[b]));
                assert(pairs.contains(pairs[a]));
                assert(pairs.contains(pairs[b]));
                assert(pairs.contains((pairs[a].0, pairs[a].1)));
                assert(pairs.contains((pairs[b].0, pairs[b].1)));
            }
            assert forall|key: Seq<char>| #[trigger] text::texts(out@).contains(key)
                <==> self@.contains_key(key) by {
                if text::texts(out@).contains(key) {
                    let k = choose|k: int|
                        0 <= k < text::texts(out@).len() && text::texts(out@)[k] == key;
                    assert(pairs[k].1 == key);
                    assert(pairs.contains((pairs[k].0, key)));
                    assert(marks@.contains_key(key));
                }
                if self@.contains_key(key) {
                    assert(self.entries@.contains_key(key));
                    assert(marks@.contains_key(key));
                    assert(pairs.contains((0i64, key)));
                    let k = choose|k: int| 0 <= k < pairs.len() && pairs[k] == (0i64, key);
                    assert(text::texts(out@)[k] == key);
                }
            }
        }
        out
    }
}

} // verus!
