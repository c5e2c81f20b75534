//! Redis key literals and hash codecs of the recap domain.
//!
//! Callback buttons and deep links that are live in Telegram carry what this
//! module computes, so its literals are a wire format.

use sha2::{Digest, Sha256};
use vstd::prelude::*;
use vstd::string::StrSliceExecFns;

use crate::numeral::{self, format_i32, format_i64, parse_i32, parse_i64};
use crate::text::{self, joined2, joined3, same};

verus! {

/// Lifetime of a stored callback payload.
pub const CALLBACK_PAYLOAD_TTL_SECONDS: i64 = 86_400;

/// Lifetime of a stored `/start` deep-link context.
pub const START_CONTEXT_TTL_SECONDS: i64 = 86_400;

/// Lifetime of both forwarded-session keys.
pub const FORWARDED_SESSION_TTL_SECONDS: i64 = 7_200;

/// Lifetime of the per-actor delete-later list.
pub const DELETE_LATER_TTL_SECONDS: i64 = 86_400;

/// The only value that is ever written into the forwarded control key.
pub const FORWARDED_CONTROL_ACTIVE_VALUE: &'static str = "1";

/// Number of lowercase hex characters kept from the route and action digests.
pub const CALLBACK_ROUTE_HASH_HEX_LEN: usize = 16;

/// Number of lowercase hex characters kept from a start-context digest.
pub const START_CONTEXT_TOKEN_HEX_LEN: usize = 8;

pub const CALLBACK_PAYLOAD_KEY_PREFIX: &'static str = "callback_query/button_data";

pub const FORWARDED_KEY_PREFIX: &'static str = "recap/replay_from_private_message";

pub const DELETE_LATER_KEY_PREFIX: &'static str = "session/delete_later_messages_for_actor";

pub const MANUAL_RECAP_RATE_KEY_PREFIX: &'static str = "rate_limit/manual_recap/command:/recap/group/Telegram";

/// The sorted set of automatic recaps by their due instant.
pub const AUTO_RECAP_QUEUE_KEY: &'static str = "recap/auto_recap_queue";

pub const ROUTE_SELECT_HOUR: &'static str = "recap/select-hour";

pub const ROUTE_CONFIGURE_TOGGLE: &'static str = "recap/configure/toggle";

pub const ROUTE_CONFIGURE_ASSIGN_MODE: &'static str = "recap/configure/assign_mode";

pub const ROUTE_CONFIGURE_COMPLETE: &'static str = "recap/configure/complete";

pub const ROUTE_UNSUBSCRIBE_RECAP: &'static str = "recap/unsubscribe_recap";

pub const ROUTE_RECAP_FEEDBACK_REACT: &'static str = "recap/recap/feedback/react";

pub const ROUTE_CONFIGURE_AUTO_RECAP_RATES_PER_DAY: &'static str = "recap/configure/auto_recap_rates_per_day";

pub const ROUTE_CONFIGURE_PIN: &'static str = "recap/configure/pin";

/// The route of feedback on summarizations, which recap vote buttons carry too.
pub const ROUTE_SMR_SUMMARIZATION_FEEDBACK_REACT: &'static str = "smr/summarization/feedback/react";

/// Every callback route literal, in registration order.
pub const REGISTERED_CALLBACK_ROUTES: [&'static str; 9] = [
    ROUTE_SELECT_HOUR,
    ROUTE_CONFIGURE_TOGGLE,
    ROUTE_CONFIGURE_ASSIGN_MODE,
    ROUTE_CONFIGURE_COMPLETE,
    ROUTE_UNSUBSCRIBE_RECAP,
    ROUTE_RECAP_FEEDBACK_REACT,
    ROUTE_CONFIGURE_AUTO_RECAP_RATES_PER_DAY,
    ROUTE_CONFIGURE_PIN,
    ROUTE_SMR_SUMMARIZATION_FEEDBACK_REACT,
];

/// The registered route literals, as texts.
pub open spec fn registered_routes() -> Seq<Seq<char>> {
    Seq::new(9, |i: int| REGISTERED_CALLBACK_ROUTES@[i]@)
}

// ---------------------------------------------------------------------------
// Digests
// ---------------------------------------------------------------------------

/// The SHA-256 digest of bytes.
pub uninterp spec fn sha256_digest(bytes: Seq<u8>) -> Seq<u8>;

/// `sha2::Sha256::digest`: thirty-two bytes that depend on the input alone.
#[verifier::external_body]
pub(crate) fn sha256(bytes: &[u8]) -> (digest: Vec<u8>)
    ensures
        digest@ == sha256_digest(bytes@),
        digest@.len() == 32,
{
    Sha256::digest(bytes).to_vec()
}

/// The lowercase hex digit of a nibble.
pub open spec fn hex_digit(n: int) -> char {
    if n < 10 {
        ('0' as int + n) as char
    } else {
        ('a' as int + n - 10) as char
    }
}

/// The first `count` lowercase hex digits of bytes.
pub open spec fn hex_prefix(bytes: Seq<u8>, count: int) -> Seq<char> {
    Seq::new(
        count as nat,
        |i: int|
            if i % 2 == 0 {
                hex_digit(bytes[i / 2] as int / 16)
            } else {
                hex_digit(bytes[i / 2] as int % 16)
            },
    )
}

/// The first `count` lowercase hex digits of the SHA-256 digest of a text.
pub open spec fn text_digest(s: Seq<char>, count: int) -> Seq<char> {
    hex_prefix(sha256_digest(vstd::utf8::encode_utf8(s)), count)
}

fn nibble_digit(n: u8) -> (c: char)
    requires
        n < 16,
    ensures
        c == hex_digit(n as int),
{
    if n < 10 {
        (48 + n) as char
    } else {
        (87 + n) as char
    }
}

/// Write out the first `count` hex digits of a digest.
pub fn hex_of_digest(digest: &Vec<u8>, count: usize) -> (out: String)
    requires
        count <= 2 * digest@.len(),
    ensures
        out@ == hex_prefix(digest@, count as int),
{
    let mut out: String = String::new();
    let mut i: usize = 0;
    while i < count
        invariant
            i <= count <= 2 * digest@.len(),
            out@ == hex_prefix(digest@, i as int),
        decreases count - i,
    {
        let byte: u8 = digest[i / 2];
        if i % 2 == 0 {
            out.push(nibble_digit(byte / 16));
        } else {
            out.push(nibble_digit(byte % 16));
        }
        i = i + 1;
        assert(out@ =~= hex_prefix(digest@, i as int));
    }
    out
}

fn sha256_hex_prefix(input: &str, count: usize) -> (out: String)
    requires
        count <= 64,
    ensures
        out@ == text_digest(input@, count as int),
{
    let digest: Vec<u8> = sha256(input.as_bytes());
    hex_of_digest(&digest, count)
}

proof fn lemma_nibbles(byte: u8)
    ensures
        0 <= byte as int / 16 < 16,
        0 <= byte as int % 16 < 16,
{
}

/// A hex digest holds lowercase hex digits only.
pub proof fn lemma_hex_prefix_chars(bytes: Seq<u8>, count: int)
    requires
        0 <= count,
    ensures
        hex_prefix(bytes, count).len() == count,
        forall|i: int|
            0 <= i < count ==> '0' <= #[trigger] hex_prefix(bytes, count)[i] <= '9' || 'a'
                <= hex_prefix(bytes, count)[i] <= 'f',
{
    assert forall|i: int| 0 <= i < count implies '0' <= #[trigger] hex_prefix(bytes, count)[i]
        <= '9' || 'a' <= hex_prefix(bytes, count)[i] <= 'f' by {
        lemma_nibbles(bytes[i / 2]);
    }
}

// ---------------------------------------------------------------------------
// Callbacks
// ---------------------------------------------------------------------------

/// The hash of a route or an action payload, as the Telegram wire carries it.
pub open spec fn wire_hash(s: Seq<char>) -> Seq<char> {
    text_digest(s, CALLBACK_ROUTE_HASH_HEX_LEN as int)
}

/// The value that an inline button carries.
pub open spec fn wire_value(route: Seq<char>, payload: Seq<char>) -> Seq<char> {
    wire_hash(route) + ";"@ + wire_hash(payload)
}

/// The key of a stored callback payload: it holds the literal route, where the wire
/// holds the route's hash.
pub open spec fn payload_key(route: Seq<char>, action_hash: Seq<char>) -> Seq<char> {
    CALLBACK_PAYLOAD_KEY_PREFIX@ + "/"@ + route + "/"@ + action_hash
}

/// The route and action hashes of a wire value, which has exactly two segments.
pub open spec fn decoded_wire(wire: Seq<char>) -> Option<(Seq<char>, Seq<char>)> {
    let segments = text::pieces(wire, ';');
    if segments.len() == 2 {
        Some((segments[0], segments[1]))
    } else {
        None
    }
}

/// Whether `i` is the first registered route with a hash.
pub open spec fn first_with_hash(hash: Seq<char>, i: int) -> bool {
    &&& 0 <= i < registered_routes().len()
    &&& wire_hash(registered_routes()[i]) == hash
    &&& forall|k: int| 0 <= k < i ==> wire_hash(#[trigger] registered_routes()[k]) != hash
}

/// The hash of a callback route literal as it appears on the wire.
pub fn callback_route_hash(route: &str) -> (out: String)
    ensures
        out@ == wire_hash(route@),
{
    sha256_hex_prefix(route, CALLBACK_ROUTE_HASH_HEX_LEN)
}

/// The hash of a callback action payload as it appears on the wire.
pub fn callback_action_hash(payload_json: &str) -> (out: String)
    ensures
        out@ == wire_hash(payload_json@),
{
    sha256_hex_prefix(payload_json, CALLBACK_ROUTE_HASH_HEX_LEN)
}

/// The `<route-hash>;<action-hash>` value carried by an inline button.
pub fn callback_wire_value(route: &str, payload_json: &str) -> (out: String)
    ensures
        out@ == wire_value(route@, payload_json@),
{
    joined3(
        callback_route_hash(route).as_str(),
        ";",
        callback_action_hash(payload_json).as_str(),
    )
}

/// The key of a stored callback payload.
pub fn callback_payload_key(route: &str, action_hash: &str) -> (out: String)
    ensures
        out@ == payload_key(route@, action_hash@),
{
    let mut out: String = joined3(CALLBACK_PAYLOAD_KEY_PREFIX, "/", route);
    out.append("/");
    out.append(action_hash);
    out
}

/// Split a wire value into its route and action hashes.
///
/// Anything other than exactly two separator-delimited segments is malformed.
pub fn decode_callback_wire<'a>(wire: &'a str) -> (r: Option<(&'a str, &'a str)>)
    ensures
        match r {
            Some(hashes) => decoded_wire(wire@) == Some((hashes.0@, hashes.1@)),
            None => decoded_wire(wire@) is None,
        },
{
    let segments: Vec<String> = text::split(wire, ';');
    assert(text::texts(segments@).len() == segments@.len());
    if segments.len() != 2 {
        return None;
    }
    let ghost s = wire@;
    assert(text::texts(segments@)[0] == segments@[0]@);
    assert(text::texts(segments@)[1] == segments@[1]@);
    let chars: Vec<char> = text::chars_of(wire);
    let mut i: usize = 0;
    while i < chars.len() && chars[i] != ';'
        invariant
            i <= chars.len(),
            chars@ == wire@,
            text::pieces(wire@, ';') == text::split_from(wire@, ';', 0, i as int),
        decreases chars.len() - i,
    {
        i = i + 1;
    }
    if i == chars.len() {
        assert(text::pieces(wire@, ';').len() == 1);
        return None;
    }
    let ghost rest = text::split_from(s, ';', i + 1, i + 1);
    assert(text::pieces(s, ';') == seq![s.subrange(0, i as int)] + rest);
    assert(rest.len() == 1);
    proof {
        text::lemma_single_piece(s, ';', i + 1, i + 1);
    }
    assert(text::pieces(s, ';')[1] == rest[0]);
    Some((wire.substring_char(0, i), wire.substring_char(i + 1, chars.len())))
}

/// Map a wire route hash back to its registered literal.
pub fn resolve_callback_route(route_hash: &str) -> (r: Option<&'static str>)
    ensures
        match r {
            Some(route) => exists|i: int|
                #[trigger] first_with_hash(route_hash@, i) && registered_routes()[i] == route@,
            None => forall|i: int| !first_with_hash(route_hash@, i),
        },
{
    let routes: [&'static str; 9] = REGISTERED_CALLBACK_ROUTES;
    let mut i: usize = 0;
    while i < 9
        invariant
            i <= 9,
            routes == REGISTERED_CALLBACK_ROUTES,
            forall|k: int| 0 <= k < i
                ==> wire_hash(#[trigger] registered_routes()[k]) != route_hash@,
        decreases 9 - i,
    {
        let route: &'static str = routes[i];
        assert(registered_routes()[i as int] == route@);
        if same(callback_route_hash(route).as_str(), route_hash) {
            assert(first_with_hash(route_hash@, i as int));
            return Some(route);
        }
        i = i + 1;
    }
    None
}

/// Decoding the value of an inline button gives its two hashes back.
pub proof fn lemma_wire_value_decodes(route: Seq<char>, payload: Seq<char>)
    ensures
        decoded_wire(wire_value(route, payload)) == Some((wire_hash(route), wire_hash(payload))),
{
    reveal_strlit(";");
    lemma_hex_prefix_chars(sha256_digest(vstd::utf8::encode_utf8(route)), 16);
    lemma_hex_prefix_chars(sha256_digest(vstd::utf8::encode_utf8(payload)), 16);
    assert(";"@ =~= seq![';']);
    text::lemma_two_pieces(wire_hash(route), ';', wire_hash(payload));
}

// ---------------------------------------------------------------------------
// Start contexts
// ---------------------------------------------------------------------------

/// The two `/start` deep-link context families.
#[derive(Clone, Copy, Debug, Eq, PartialEq, Hash, Structural)]
pub enum StartContextDomain {
    /// `/recap` in private-subscription mode.
    PrivateSubscription,
    /// `/subscribe_recap`.
    SubscribeRecap,
}

/// The prefix hashed to derive a deep-link token. The private family hashes
/// `private_subscription_mode` while it stores under `private_subscription`.
pub open spec fn token_prefix(domain: StartContextDomain) -> Seq<char> {
    match domain {
        StartContextDomain::PrivateSubscription =>
            "recap/private_subscription_mode/start_command_context"@,
        StartContextDomain::SubscribeRecap => "recap/subscribe_recap/start_command_context"@,
    }
}

/// The prefix of the key that holds a serialized context.
pub open spec fn context_prefix(domain: StartContextDomain) -> Seq<char> {
    match domain {
        StartContextDomain::PrivateSubscription =>
            "recap/private_subscription/start_command_context"@,
        StartContextDomain::SubscribeRecap => "recap/subscribe_recap/start_command_context"@,
    }
}

/// The deep-link token of a chat.
pub open spec fn start_token(domain: StartContextDomain, chat_id: int) -> Seq<char> {
    text_digest(
        token_prefix(domain) + "/"@ + numeral::decimal(chat_id),
        START_CONTEXT_TOKEN_HEX_LEN as int,
    )
}

/// The key of a start context.
pub open spec fn context_key(domain: StartContextDomain, token: Seq<char>) -> Seq<char> {
    context_prefix(domain) + "/"@ + token
}

impl StartContextDomain {
    /// The prefix hashed to derive the deep-link token.
    pub fn token_source_prefix(self) -> (out: &'static str)
        ensures
            out@ == token_prefix(self),
    {
        match self {
            StartContextDomain::PrivateSubscription =>
                "recap/private_subscription_mode/start_command_context",
            StartContextDomain::SubscribeRecap => "recap/subscribe_recap/start_command_context",
        }
    }

    /// The prefix of the key that holds the serialized context.
    pub fn key_prefix(self) -> (out: &'static str)
        ensures
            out@ == context_prefix(self),
    {
        match self {
            StartContextDomain::PrivateSubscription =>
                "recap/private_subscription/start_command_context",
            StartContextDomain::SubscribeRecap => "recap/subscribe_recap/start_command_context",
        }
    }

    /// The text whose digest is the token of a chat.
    pub fn token_source(self, chat_id: i64) -> (out: String)
        ensures
            out@ == token_prefix(self) + "/"@ + numeral::decimal(chat_id as int),
    {
        joined3(self.token_source_prefix(), "/", format_i64(chat_id).as_str())
    }

    /// The deep-link token for a chat.
    pub fn token(self, chat_id: i64) -> (out: String)
        ensures
            out@ == start_token(self, chat_id as int),
    {
        sha256_hex_prefix(self.token_source(chat_id).as_str(), START_CONTEXT_TOKEN_HEX_LEN)
    }

    /// The key holding the context for `token`.
    pub fn key(self, token: &str) -> (out: String)
        ensures
            out@ == context_key(self, token@),
    {
        joined3(self.key_prefix(), "/", token)
    }
}

/// The contexts of the two families never share a key.
pub proof fn lemma_context_keys_apart(a: Seq<char>, b: Seq<char>)
    ensures
        context_key(StartContextDomain::PrivateSubscription, a) != context_key(
            StartContextDomain::SubscribeRecap,
            b,
        ),
{
    reveal_strlit("recap/private_subscription/start_command_context");
    reveal_strlit("recap/subscribe_recap/start_command_context");
    let x = context_key(StartContextDomain::PrivateSubscription, a);
    let y = context_key(StartContextDomain::SubscribeRecap, b);
    assert(x[6] == 'p');
    assert(y[6] == 's');
}

// ---------------------------------------------------------------------------
// Sessions
// ---------------------------------------------------------------------------

pub open spec fn control_key(user_id: int) -> Seq<char> {
    FORWARDED_KEY_PREFIX@ + "/"@ + numeral::decimal(user_id)
}

pub open spec fn batch_key(user_id: int) -> Seq<char> {
    control_key(user_id) + "/batch"@
}

pub open spec fn later_key(user_id: int) -> Seq<char> {
    DELETE_LATER_KEY_PREFIX@ + "/"@ + numeral::decimal(user_id)
}

pub open spec fn rate_key(chat_id: int) -> Seq<char> {
    MANUAL_RECAP_RATE_KEY_PREFIX@ + "/"@ + numeral::decimal(chat_id)
}

/// The key of the forwarded-session control flag for `user_id`.
pub fn forwarded_control_key(user_id: i64) -> (out: String)
    ensures
        out@ == control_key(user_id as int),
{
    joined3(FORWARDED_KEY_PREFIX, "/", format_i64(user_id).as_str())
}

/// The key of the forwarded-session replay batch for `user_id`.
pub fn forwarded_batch_key(user_id: i64) -> (out: String)
    ensures
        out@ == batch_key(user_id as int),
{
    joined2(forwarded_control_key(user_id).as_str(), "/batch")
}

/// The key of the delete-later list for `user_id`.
pub fn delete_later_key(user_id: i64) -> (out: String)
    ensures
        out@ == later_key(user_id as int),
{
    joined3(DELETE_LATER_KEY_PREFIX, "/", format_i64(user_id).as_str())
}

/// The key of the per-group `/recap` command counter.
pub fn manual_recap_rate_key(chat_id: i64) -> (out: String)
    ensures
        out@ == rate_key(chat_id as int),
{
    joined3(MANUAL_RECAP_RATE_KEY_PREFIX, "/", format_i64(chat_id).as_str())
}

/// A `<chat-id>;<message-id>` delete-later list member.
pub open spec fn later_member(chat_id: int, message_id: int) -> Seq<char> {
    numeral::decimal(chat_id) + ";"@ + numeral::decimal(message_id)
}

/// The message a delete-later member names: exactly two segments, both numerals in
/// range, and neither zero.
pub open spec fn parsed_member(raw: Seq<char>) -> Option<(i64, i32)> {
    let segments = text::pieces(raw, ';');
    if segments.len() != 2 {
        None
    } else {
        let chat_id = numeral::parsed_within(segments[0], i64::MIN as int, i64::MAX as int);
        let message_id = numeral::parsed_within(segments[1], i32::MIN as int, i32::MAX as int);
        if chat_id is None || message_id is None || chat_id->0 == 0 || message_id->0 == 0 {
            None
        } else {
            Some((chat_id->0 as i64, message_id->0 as i32))
        }
    }
}

/// A `<chat-id>;<message-id>` delete-later list member.
pub fn delete_later_member(chat_id: i64, message_id: i32) -> (out: String)
    ensures
        out@ == later_member(chat_id as int, message_id as int),
{
    joined3(format_i64(chat_id).as_str(), ";", format_i32(message_id).as_str())
}

/// Parse a delete-later member, rejecting what names no message.
pub fn parse_delete_later_member(raw: &str) -> (r: Option<(i64, i32)>)
    ensures
        r == parsed_member(raw@),
{
    let segments: Vec<String> = text::split(raw, ';');
    assert(text::texts(segments@).len() == segments@.len());
    if segments.len() != 2 {
        return None;
    }
    assert(text::texts(segments@)[0] == segments@[0]@);
    assert(text::texts(segments@)[1] == segments@[1]@);
    match (parse_i64(segments[0].as_str()), parse_i32(segments[1].as_str())) {
        (Some(chat_id), Some(message_id)) => if chat_id == 0 || message_id == 0 {
            None
        } else {
            Some((chat_id, message_id))
        },
        _ => None,
    }
}

/// Parsing a member that was written gives the message back.
pub proof fn lemma_later_member_parses(chat_id: i64, message_id: i32)
    requires
        chat_id != 0,
        message_id != 0,
    ensures
        parsed_member(later_member(chat_id as int, message_id as int)) == Some(
            (chat_id, message_id),
        ),
{
    reveal_strlit(";");
    assert(";"@ =~= seq![';']);
    let a = numeral::decimal(chat_id as int);
    let b = numeral::decimal(message_id as int);
    numeral::lemma_decimal_chars(chat_id as int);
    numeral::lemma_decimal_chars(message_id as int);
    numeral::lemma_decimal_reads_back(chat_id as int);
    numeral::lemma_decimal_reads_back(message_id as int);
    text::lemma_two_pieces(a, ';', b);
}

} // verus!
