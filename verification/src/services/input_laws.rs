//! What holds of what comes from outside: escapes in addresses, marks at the start of a
//! page, pressed buttons and names in a prompt.

use vstd::prelude::*;

use crate::redis::keys;
use crate::redis::recap_state::{self, RouteModel};
use crate::services::completion::ModelsModel;
use crate::services::condensed::{self, EventModel};
use crate::services::link_preview::{self, Sniffed};
use crate::services::message_capture;
use crate::services::recap_generation;
use crate::services::rich_recap;
use crate::text;
use crate::text_laws;

verus! {

// ---------------------------------------------------------------------------
// Escapes in addresses
// ---------------------------------------------------------------------------

/// A digit to the base of sixteen, in small letters or in capitals.
pub open spec fn sixteenth(n: int, capital: bool) -> u8 {
    if n < 10 {
        (48 + n) as u8
    } else if capital {
        (55 + n) as u8
    } else {
        (87 + n) as u8
    }
}

/// What follows a byte, with the byte before it.
pub open spec fn behind(b: int, rest: Option<Seq<u8>>) -> Option<Seq<u8>> {
    match rest {
        Some(found) => Some(seq![b as u8] + found),
        None => None,
    }
}

proof fn lemma_unescaped_shift(front: Seq<u8>, rest: Seq<u8>, i: int)
    requires
        0 <= i <= rest.len(),
    ensures
        message_capture::unescaped_from(front + rest, front.len() + i)
            == message_capture::unescaped_from(rest, i),
    decreases rest.len() - i,
{
    let all = front + rest;
    let at = front.len() + i;
    if i < rest.len() {
        assert(all[at] == rest[i]);
        if i + 1 < rest.len() {
            assert(all[at + 1] == rest[i + 1]);
        }
        if i + 2 < rest.len() {
            assert(all[at + 2] == rest[i + 2]);
        }
        if rest[i] == 0x25 {
            if i + 2 < rest.len() {
                lemma_unescaped_shift(front, rest, i + 3);
            }
        } else {
            lemma_unescaped_shift(front, rest, i + 1);
        }
    }
}

/// An escape stands for the byte that its two digits name, a plus for a space, and every
/// other byte for itself.
pub proof fn lemma_escapes_name_bytes(
    rest: Seq<u8>,
    byte: int,
    high_capital: bool,
    low_capital: bool,
    plain: u8,
)
    requires
        0 <= byte < 256,
        plain != 0x25,
        plain != 0x2b,
    ensures
        ({
            let read = message_capture::unescaped(rest);
            let escape = seq![
                0x25u8,
                sixteenth(byte / 16, high_capital),
                sixteenth(byte % 16, low_capital),
            ];
            &&& message_capture::unescaped(escape + rest) == behind(byte, read)
            &&& message_capture::unescaped(seq![0x2bu8] + rest) == behind(32, read)
            &&& message_capture::unescaped(seq![plain] + rest) == behind(plain as int, read)
        }),
{
    let h = byte / 16;
    let l = byte % 16;
    let escape = seq![0x25u8, sixteenth(h, high_capital), sixteenth(l, low_capital)];
    assert(message_capture::hex_value(sixteenth(h, high_capital)) == h);
    assert(message_capture::hex_value(sixteenth(l, low_capital)) == l);
    assert(16 * h + l == byte);
    lemma_unescaped_shift(escape, rest, 0);
    let a = escape + rest;
    assert(a[0] == 0x25 && a[1] == escape[1] && a[2] == escape[2]);
    lemma_unescaped_shift(seq![0x2bu8], rest, 0);
    assert((seq![0x2bu8] + rest)[0] == 0x2b);
    lemma_unescaped_shift(seq![plain], rest, 0);
    assert((seq![plain] + rest)[0] == plain);
}

/// A percent sign without two digits behind it cannot be read, and nothing before it can.
pub proof fn lemma_broken_escapes(rest: Seq<u8>, before: u8)
    requires
        before != 0x25,
        rest.len() < 2 || !(48 <= rest[0] <= 57 || 65 <= rest[0] <= 70 || 97 <= rest[0] <= 102)
            || !(48 <= rest[1] <= 57 || 65 <= rest[1] <= 70 || 97 <= rest[1] <= 102),
    ensures
        message_capture::unescaped(seq![0x25u8] + rest) is None,
        message_capture::unescaped(seq![before] + (seq![0x25u8] + rest)) is None,
        message_capture::unescaped(Seq::<u8>::empty()) == Some(Seq::<u8>::empty()),
{
    let broken = seq![0x25u8] + rest;
    assert(broken[0] == 0x25);
    if rest.len() >= 2 {
        assert(broken[1] == rest[0] && broken[2] == rest[1]);
    }
    lemma_unescaped_shift(seq![before], broken, 0);
    assert((seq![before] + broken)[0] == before);
}

// ---------------------------------------------------------------------------
// Pages
// ---------------------------------------------------------------------------

/// A page that starts with a mark of its encoding is read in that encoding.
pub proof fn lemma_marks_name_the_encoding(rest: Seq<u8>)
    ensures
        link_preview::sniffed_prefix(seq![239u8, 187u8, 191u8] + rest) == Some(Sniffed::Raw),
        link_preview::sniffed_prefix(seq![255u8, 254u8] + rest) == Some(
            Sniffed::Decode("UTF-16LE"@),
        ),
        link_preview::sniffed_prefix(seq![254u8, 255u8] + rest) == Some(
            Sniffed::Decode("UTF-16BE"@),
        ),
{
    reveal_strlit("UTF-8");
    reveal_strlit("UTF-16LE");
    reveal_strlit("UTF-16BE");
    assert("UTF-8"@.len() == 5 && "UTF-16LE"@.len() == 8 && "UTF-16BE"@.len() == 8);
    let a = seq![239u8, 187u8, 191u8] + rest;
    let b = seq![255u8, 254u8] + rest;
    let c = seq![254u8, 255u8] + rest;
    assert(a[0] == 239 && a[1] == 187 && a[2] == 191);
    assert(b[0] == 255 && b[1] == 254);
    assert(c[0] == 254 && c[1] == 255);
}

// ---------------------------------------------------------------------------
// Pressed buttons
// ---------------------------------------------------------------------------

/// A press is looked up only for a route that is registered and bound, that the wire names,
/// and under the hash that the wire carries.
pub proof fn lemma_presses_are_routed(bound: Set<Seq<char>>, wire: Seq<char>)
    ensures
        ({
            let routed = recap_state::routed(bound, wire);
            let halves = text::pieces(wire, ';');
            &&& routed is Malformed <==> halves.len() != 2
            &&& routed matches RouteModel::Lookup { route, action_hash } ==> bound.contains(route)
                && keys::registered_routes().contains(route) && halves[0] == keys::wire_hash(route)
                && halves[1] == action_hash
            &&& routed matches RouteModel::MissingHandler { route } ==> !bound.contains(route)
                && keys::registered_routes().contains(route) && halves[0] == keys::wire_hash(route)
            &&& routed is UnknownRoute ==> forall|i: int|
                0 <= i < keys::registered_routes().len() ==> keys::wire_hash(
                    #[trigger] keys::registered_routes()[i],
                ) != halves[0]
        }),
{
    let halves = text::pieces(wire, ';');
    if halves.len() == 2 {
        let hash = halves[0];
        if exists|i: int| keys::first_with_hash(hash, i) {
            let i = choose|i: int| keys::first_with_hash(hash, i);
            assert(keys::registered_routes().contains(keys::registered_routes()[i]));
        } else {
            assert forall|i: int| 0 <= i < keys::registered_routes().len() implies keys::wire_hash(
                #[trigger] keys::registered_routes()[i],
            ) != hash by {
                lemma_none_before(hash, i);
            }
        }
    }
}

proof fn lemma_none_before(hash: Seq<char>, i: int)
    requires
        0 <= i < keys::registered_routes().len(),
        !(exists|k: int| keys::first_with_hash(hash, k)),
    ensures
        forall|k: int|
            0 <= k <= i ==> keys::wire_hash(#[trigger] keys::registered_routes()[k]) != hash,
    decreases i,
{
    if i > 0 {
        lemma_none_before(hash, i - 1);
    }
    if keys::wire_hash(keys::registered_routes()[i]) == hash {
        assert(keys::first_with_hash(hash, i));
    }
}

/// Messages are named in order, and what names none is passed over.
pub proof fn lemma_messages_are_named_in_order(members: Seq<Seq<char>>, more: Seq<char>)
    ensures
        recap_state::named_messages(members.push(more), 0) == match keys::parsed_member(more) {
            Some(message) => recap_state::named_messages(members, 0).push(message),
            None => recap_state::named_messages(members, 0),
        },
{
    lemma_named_from(members, more, 0);
}

proof fn lemma_named_from(members: Seq<Seq<char>>, more: Seq<char>, i: int)
    requires
        0 <= i <= members.len(),
    ensures
        recap_state::named_messages(members.push(more), i) == match keys::parsed_member(more) {
            Some(message) => recap_state::named_messages(members, i).push(message),
            None => recap_state::named_messages(members, i),
        },
    decreases members.len() - i,
{
    let longer = members.push(more);
    if i < members.len() {
        assert(longer[i] == members[i]);
        lemma_named_from(members, more, i + 1);
    } else {
        assert(longer[i] == more);
        assert(recap_state::named_messages(longer, i + 1) =~= Seq::empty());
    }
    match keys::parsed_member(more) {
        Some(message) => {
            assert(recap_state::named_messages(longer, i) =~= recap_state::named_messages(
                members,
                i,
            ).push(message));
        },
        None => {
            assert(recap_state::named_messages(longer, i) =~= recap_state::named_messages(
                members,
                i,
            ));
        },
    }
}

// ---------------------------------------------------------------------------
// Prompts
// ---------------------------------------------------------------------------

/// A short name is shown as it is; a long one gives way to the username, where there is
/// one.
pub proof fn lemma_names_in_a_prompt(name: Seq<char>, username: Seq<char>)
    requires
        !name.contains('#'),
    ensures
        ({
            let shown = recap_generation::prompt_name(name, username);
            &&& name.len() < 10 ==> shown == name
            &&& username.len() == 0 ==> shown == name
            &&& name.len() >= 10 && username.len() > 0 ==> shown == username
        }),
{
    reveal_strlit("#");
    if text::occurs(name, "#"@) {
        let k = choose|k: int| text::matches_at(name, "#"@, k);
        assert(name.subrange(k, k + 1)[0] == '#');
        assert(name.contains(name[k]));
    }
    text_laws::lemma_nothing_to_replace(name, "#"@, ""@);
}

/// Nothing is asked for a text that says nothing; any other is condensed as it is.
pub proof fn lemma_nothing_is_not_condensed(
    models: ModelsModel,
    said: Seq<char>,
    events: Seq<EventModel>,
)
    ensures
        ({
            let step = recap_generation::condense_text(models, said, events);
            &&& text::is_blank(said) ==> step is Failed
            &&& !text::is_blank(said) ==> step == condensed::condensed_step(models, said, events)
        }),
{
}

/// A model is listed once, in the order of its first use, trimmed; one without a name is
/// not.
pub proof fn lemma_models_are_listed_once(models: Seq<Seq<char>>, name: Seq<char>)
    requires
        text::trimmed(name) == name,
        name.len() > 0,
        name != "unknown-model"@,
    ensures
        rich_recap::with_model(models, name).contains(name),
        rich_recap::with_model(rich_recap::with_model(models, name), name)
            == rich_recap::with_model(models, name),
        models.is_prefix_of(rich_recap::with_model(models, name)),
        models.contains(name) ==> rich_recap::with_model(models, name) == models,
        !models.contains(name) ==> rich_recap::with_model(models, name) == models.push(name),
{
    let listed = rich_recap::with_model(models, name);
    if !models.contains(name) {
        assert(models.push(name)[models.len() as int] == name);
    }
    assert(listed.subrange(0, models.len() as int) =~= models);
}

} // verus!
