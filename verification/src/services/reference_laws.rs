//! What holds of the markers of a recap once they are resolved: every one of them is gone,
//! its links stand in its place, and the text around them is as it was.

use vstd::prelude::*;

use crate::numeral;
use crate::services::patterns;
use crate::services::rich_recap;
use crate::text;

verus! {

// ---------------------------------------------------------------------------
// Places
// ---------------------------------------------------------------------------

/// Where marker `k` starts in the text.
pub open spec fn marker_start(
    s: Seq<char>,
    found: Seq<((usize, usize), (usize, usize))>,
    k: int,
) -> int {
    patterns::position_of(s, found[k].0.0 as int)
}

/// Where the text goes on behind marker `k`.
pub open spec fn marker_end(
    s: Seq<char>,
    found: Seq<((usize, usize), (usize, usize))>,
    k: int,
) -> int {
    patterns::position_of(s, found[k].0.1 as int)
}

/// The links of marker `k`, as they would stand if it were the only one.
pub open spec fn links_of(
    s: Seq<char>,
    found: Seq<((usize, usize), (usize, usize))>,
    chat_id: int,
    chat_type: Seq<char>,
    numbers: Map<i64, i64>,
    k: int,
) -> Seq<char> {
    rich_recap::marker_links(
        s.subrange(
            patterns::position_of(s, found[k].1.0 as int),
            patterns::position_of(s, found[k].1.1 as int),
        ),
        chat_id,
        chat_type,
        numbers,
    )
}

/// How much longer the first `k` markers make the text.
pub open spec fn growth(
    s: Seq<char>,
    found: Seq<((usize, usize), (usize, usize))>,
    chat_id: int,
    chat_type: Seq<char>,
    numbers: Map<i64, i64>,
    k: int,
) -> int
    decreases k,
{
    if k <= 0 {
        0
    } else {
        growth(s, found, chat_id, chat_type, numbers, k - 1) + links_of(
            s,
            found,
            chat_id,
            chat_type,
            numbers,
            k - 1,
        ).len() - (marker_end(s, found, k - 1) - marker_start(s, found, k - 1))
    }
}

/// Whether position `p` of the text lies behind `k` markers and before all others.
pub open spec fn between_markers(
    s: Seq<char>,
    found: Seq<((usize, usize), (usize, usize))>,
    k: int,
    p: int,
) -> bool {
    &&& 0 <= k <= found.len()
    &&& 0 <= p < s.len()
    &&& k > 0 ==> marker_end(s, found, k - 1) <= p
    &&& k < found.len() ==> p < marker_start(s, found, k)
}

proof fn lemma_marker_order(
    s: Seq<char>,
    found: Seq<((usize, usize), (usize, usize))>,
    k: int,
)
    requires
        patterns::ordered_captures(found),
        0 <= k < found.len(),
    ensures
        0 <= marker_start(s, found, k) <= marker_end(s, found, k) <= s.len(),
        k > 0 ==> marker_end(s, found, k - 1) <= marker_start(s, found, k),
{
    let here = found[k];
    patterns::lemma_position_monotone(s, 0, here.0.0 as int, here.0.1 as int);
    if k > 0 {
        patterns::lemma_position_monotone(s, 0, found[k - 1].0.1 as int, here.0.0 as int);
    }
}

/// Whether the resolved text, from behind `i` markers on, is as long as what it is made
/// of, has the character at `p` of the text in its place where that lies behind `k`
/// markers, and the links of marker `k` in theirs.
pub open spec fn in_place(
    s: Seq<char>,
    found: Seq<((usize, usize), (usize, usize))>,
    chat_id: int,
    chat_type: Seq<char>,
    numbers: Map<i64, i64>,
    out: Seq<char>,
    base: int,
    k: int,
    p: int,
) -> bool {
    let shift = growth(s, found, chat_id, chat_type, numbers, k) - base;
    &&& out.len() == s.len() + growth(s, found, chat_id, chat_type, numbers, found.len() as int)
        - base
    &&& between_markers(s, found, k, p) ==> 0 <= p + shift < out.len() && out[p + shift] == s[p]
    &&& 0 <= k < found.len() ==> {
        let links = links_of(s, found, chat_id, chat_type, numbers, k);
        let q = marker_start(s, found, k) + shift;
        0 <= q && q + links.len() <= out.len() && out.subrange(q, q + links.len()) == links
    }
}

proof fn lemma_resolved_places(
    s: Seq<char>,
    found: Seq<((usize, usize), (usize, usize))>,
    chat_id: int,
    chat_type: Seq<char>,
    numbers: Map<i64, i64>,
    i: int,
    at: int,
    k: int,
    p: int,
)
    requires
        patterns::ordered_captures(found),
        0 <= i <= k <= found.len(),
        at == if i == 0 {
            0
        } else {
            marker_end(s, found, i - 1)
        },
        0 <= at <= s.len(),
    ensures
        in_place(
            s,
            found,
            chat_id,
            chat_type,
            numbers,
            rich_recap::resolved_from(s, found, chat_id, chat_type, numbers, i, at),
            at + growth(s, found, chat_id, chat_type, numbers, i),
            k,
            p,
        ),
    decreases found.len() - i,
{
    let out = rich_recap::resolved_from(s, found, chat_id, chat_type, numbers, i, at);
    let base = at + growth(s, found, chat_id, chat_type, numbers, i);
    let shift = growth(s, found, chat_id, chat_type, numbers, k) - base;
    if i < found.len() {
        lemma_marker_order(s, found, i);
        let start = marker_start(s, found, i);
        let end = marker_end(s, found, i);
        let gap = s.subrange(at, start);
        let links = links_of(s, found, chat_id, chat_type, numbers, i);
        let rest = rich_recap::resolved_from(s, found, chat_id, chat_type, numbers, i + 1, end);
        assert(out == gap + links + rest);
        let head = gap.len() + links.len();
        let later = end + growth(s, found, chat_id, chat_type, numbers, i + 1);
        assert(later == base + head);
        let next = if k > i {
            k
        } else {
            i + 1
        };
        lemma_resolved_places(s, found, chat_id, chat_type, numbers, i + 1, end, next, p);
        if k > i {
            if between_markers(s, found, k, p) {
                assert(out[p + shift] == rest[p + shift - head]);
            }
            if k < found.len() {
                let wanted = links_of(s, found, chat_id, chat_type, numbers, k);
                let q = marker_start(s, found, k) + shift;
                assert(out.subrange(q, q + wanted.len()) =~= rest.subrange(
                    q - head,
                    q - head + wanted.len(),
                ));
            }
        } else {
            if between_markers(s, found, k, p) {
                assert(out[p - at] == gap[p - at]);
            }
            assert(out.subrange(gap.len() as int, head as int) =~= links);
        }
    } else {
        assert(out == s.subrange(at, s.len() as int));
        if between_markers(s, found, k, p) {
            assert(out[p - at] == s[p]);
        }
    }
}

/// Every marker is resolved, the first as the last: the links of each stand where it
/// stood, each character outside the markers is kept in its place, and nothing else is
/// there, so that no marker reaches a reader.
pub proof fn lemma_every_marker_is_replaced(
    s: Seq<char>,
    found: Seq<((usize, usize), (usize, usize))>,
    chat_id: int,
    chat_type: Seq<char>,
    numbers: Map<i64, i64>,
    k: int,
    p: int,
)
    requires
        patterns::ordered_captures(found),
        0 <= k <= found.len(),
    ensures
        in_place(
            s,
            found,
            chat_id,
            chat_type,
            numbers,
            rich_recap::resolved_from(s, found, chat_id, chat_type, numbers, 0, 0),
            0,
            k,
            p,
        ),
{
    lemma_resolved_places(s, found, chat_id, chat_type, numbers, 0, 0, k, p);
}

/// A byte offset at which a character starts, or the text ends, has the position of that
/// character.
pub proof fn lemma_position_counts_characters(s: Seq<char>, n: int)
    requires
        0 <= n <= s.len(),
    ensures
        patterns::position_of(s, vstd::utf8::encode_utf8(s.take(n)).len() as int) == n,
{
    lemma_position_from(s, 0, n);
    assert(s.subrange(0, n) =~= s.take(n));
}

proof fn lemma_width(c: char)
    ensures
        vstd::utf8::encode_utf8(seq![c]).len() == patterns::byte_width(c),
{
    reveal_with_fuel(vstd::utf8::encode_utf8, 2);
    crate::utf16::lemma_scalar(c);
    assert(seq![c].drop_first() =~= Seq::<char>::empty());
    assert(vstd::utf8::encode_utf8(seq![c].drop_first()) =~= Seq::<u8>::empty());
}

proof fn lemma_position_from(s: Seq<char>, i: int, n: int)
    requires
        0 <= i <= n <= s.len(),
    ensures
        patterns::starts_before(s, i, vstd::utf8::encode_utf8(s.subrange(i, n)).len() as int) == n
            - i,
    decreases n - i,
{
    let part = s.subrange(i, n);
    if i == n {
        assert(part =~= Seq::<char>::empty());
        assert(vstd::utf8::encode_utf8(part) =~= Seq::<u8>::empty());
    } else {
        reveal_with_fuel(vstd::utf8::encode_utf8, 2);
        let rest = s.subrange(i + 1, n);
        assert(part.drop_first() =~= rest);
        assert(seq![s[i]][0] == s[i]);
        lemma_width(s[i]);
        assert(seq![s[i]].drop_first() =~= Seq::<char>::empty());
        assert(vstd::utf8::encode_utf8(part).len() == patterns::byte_width(s[i])
            + vstd::utf8::encode_utf8(rest).len());
        lemma_position_from(s, i + 1, n);
    }
}

// ---------------------------------------------------------------------------
// Links
// ---------------------------------------------------------------------------

/// Whether an entry of a marker names a message that may be linked: it is the number of a
/// message of this recap, written in decimal, blanks around it aside.
pub open spec fn names(entry: Seq<char>, numbers: Map<i64, i64>, message: i64) -> bool {
    exists|id: i64|
        0 < id && #[trigger] numbers.contains_key(id) && numbers[id] == message && message > 0
            && numeral::parsed_int(text::trimmed(entry)) == Some(id as int)
}

proof fn lemma_names(entry: Seq<char>, numbers: Map<i64, i64>, message: i64)
    ensures
        names(entry, numbers, message) <==> rich_recap::referenced_message(entry, numbers) == Some(
            message,
        ),
{
    let parsed = numeral::parsed_int(text::trimmed(entry));
    if rich_recap::referenced_message(entry, numbers) == Some(message) {
        let id = parsed->0 as i64;
        assert(numbers.contains_key(id));
    }
    if names(entry, numbers, message) {
        let id = choose|id: i64|
            0 < id && #[trigger] numbers.contains_key(id) && numbers[id] == message && message > 0
                && parsed == Some(id as int);
        assert(parsed == Some(id as int));
    }
}

proof fn lemma_chosen_grow(
    entries: Seq<Seq<char>>,
    numbers: Map<i64, i64>,
    i: int,
    chosen: Seq<i64>,
)
    requires
        0 <= i <= entries.len(),
        chosen.len() <= 5,
        chosen.no_duplicates(),
    ensures
        ({
            let all = rich_recap::chosen_messages(entries, numbers, i, chosen);
            &&& chosen.is_prefix_of(all)
            &&& all.len() <= 5
            &&& all.no_duplicates()
            &&& forall|k: int, message: i64|
                i <= k < entries.len() && #[trigger] names(entries[k], numbers, message)
                    ==> all.contains(message) || all.len() == 5
            &&& forall|j: int|
                chosen.len() <= j < all.len() ==> exists|k: int|
                    i <= k < entries.len() && names(entries[k], numbers, #[trigger] all[j])
        }),
    decreases entries.len() - i,
{
    let all = rich_recap::chosen_messages(entries, numbers, i, chosen);
    if i < entries.len() && chosen.len() < 5 {
        let named = rich_recap::referenced_message(entries[i], numbers);
        let next = match named {
            Some(message) => if chosen.contains(message) {
                chosen
            } else {
                chosen.push(message)
            },
            None => chosen,
        };
        assert(all == rich_recap::chosen_messages(entries, numbers, i + 1, next));
        lemma_chosen_grow(entries, numbers, i + 1, next);
        assert forall|k: int, message: i64|
            i <= k < entries.len() && #[trigger] names(entries[k], numbers, message) implies
            all.contains(message) || all.len() == 5 by {
            if k == i {
                lemma_names(entries[k], numbers, message);
                assert(next.contains(message)) by {
                    if !chosen.contains(message) {
                        assert(next[next.len() - 1] == message);
                    }
                }
                let at = choose|at: int| 0 <= at < next.len() && next[at] == message;
                assert(all[at] == message);
            }
        }
        assert forall|j: int| chosen.len() <= j < all.len() implies exists|k: int|
            i <= k < entries.len() && names(entries[k], numbers, #[trigger] all[j]) by {
            if j < next.len() {
                assert(all[j] == next[j]);
                lemma_names(entries[i], numbers, all[j]);
                assert(names(entries[i], numbers, all[j]));
            } else {
                let k = choose|k: int|
                    i + 1 <= k < entries.len() && names(entries[k], numbers, all[j]);
                assert(names(entries[k], numbers, all[j]));
            }
        }
    } else {
        assert(all == chosen);
    }
}

/// A marker links the messages that its entries name, none twice: all of them, or five
/// where they name more, and no message that no entry names.
pub proof fn lemma_marker_links_what_it_names(entries: Seq<Seq<char>>, numbers: Map<i64, i64>)
    ensures
        ({
            let chosen = rich_recap::chosen_messages(entries, numbers, 0, Seq::empty());
            &&& chosen.len() <= 5
            &&& chosen.no_duplicates()
            &&& forall|k: int, message: i64|
                0 <= k < entries.len() && #[trigger] names(entries[k], numbers, message)
                    ==> chosen.contains(message) || chosen.len() == 5
            &&& forall|j: int|
                0 <= j < chosen.len() ==> exists|k: int|
                    0 <= k < entries.len() && names(entries[k], numbers, #[trigger] chosen[j])
        }),
{
    lemma_chosen_grow(entries, numbers, 0, Seq::empty());
}

/// What a marker links first does not depend on what comes later in it.
pub proof fn lemma_marker_links_in_order(
    entries: Seq<Seq<char>>,
    more: Seq<char>,
    numbers: Map<i64, i64>,
)
    ensures
        rich_recap::chosen_messages(entries, numbers, 0, Seq::empty()).is_prefix_of(
            rich_recap::chosen_messages(entries.push(more), numbers, 0, Seq::empty()),
        ),
{
    lemma_chosen_extend(entries, more, numbers, 0, Seq::empty());
}

proof fn lemma_chosen_extend(
    entries: Seq<Seq<char>>,
    more: Seq<char>,
    numbers: Map<i64, i64>,
    i: int,
    chosen: Seq<i64>,
)
    requires
        0 <= i <= entries.len(),
        chosen.len() <= 5,
        chosen.no_duplicates(),
    ensures
        rich_recap::chosen_messages(entries, numbers, i, chosen).is_prefix_of(
            rich_recap::chosen_messages(entries.push(more), numbers, i, chosen),
        ),
    decreases entries.len() - i,
{
    let longer = entries.push(more);
    if i == entries.len() {
        lemma_chosen_grow(longer, numbers, i, chosen);
    } else if chosen.len() < 5 {
        assert(longer[i] == entries[i]);
        match rich_recap::referenced_message(entries[i], numbers) {
            Some(message) => {
                if chosen.contains(message) {
                    lemma_chosen_extend(entries, more, numbers, i + 1, chosen);
                } else {
                    lemma_chosen_extend(entries, more, numbers, i + 1, chosen.push(message));
                }
            },
            None => {
                lemma_chosen_extend(entries, more, numbers, i + 1, chosen);
            },
        }
    }
}

/// A link leads to a message of its chat: the address names the chat without the prefix
/// that its identifier has, and then the message; the text is the number of the link.
pub proof fn lemma_link_leads_to_message(n: int, chat_id: int, message_id: int)
    ensures
        rich_recap::message_link(n, chat_id, message_id) == "["@ + numeral::decimal(n)
            + "](https://t.me/c/"@ + rich_recap::link_chat_id(chat_id) + "/"@ + numeral::decimal(
            message_id,
        ) + ")"@,
        "-100"@.is_prefix_of(numeral::decimal(chat_id)) ==> "-100"@ + rich_recap::link_chat_id(
            chat_id,
        ) == numeral::decimal(chat_id),
        !"-100"@.is_prefix_of(numeral::decimal(chat_id)) ==> rich_recap::link_chat_id(chat_id)
            == numeral::decimal(chat_id),
{
    reveal_strlit("-100");
    let full = numeral::decimal(chat_id);
    if "-100"@.is_prefix_of(full) {
        assert("-100"@ + full.subrange(4, full.len() as int) =~= full) by {
            assert(full.take(4) =~= "-100"@);
        }
    }
}

/// Only supergroups have links: elsewhere a marker leaves nothing behind. In a supergroup
/// a marker with one message to link becomes its one link, and each further one follows
/// behind a blank.
pub proof fn lemma_marker_becomes_its_links(
    group: Seq<char>,
    chat_id: int,
    chat_type: Seq<char>,
    numbers: Map<i64, i64>,
)
    ensures
        ({
            let links = rich_recap::marker_links(group, chat_id, chat_type, numbers);
            let chosen = rich_recap::chosen_messages(
                text::pieces(group, ','),
                numbers,
                0,
                Seq::empty(),
            );
            &&& chat_type != "supergroup"@ ==> links.len() == 0
            &&& chat_type == "supergroup"@ ==> {
                &&& chosen.len() == 0 ==> links.len() == 0
                &&& chosen.len() == 1 ==> links == rich_recap::message_link(
                    1,
                    chat_id,
                    chosen[0] as int,
                )
                &&& forall|j: int|
                    0 <= j < chosen.len() ==> text::occurs(
                        links,
                        #[trigger] rich_recap::message_link(j + 1, chat_id, chosen[j] as int),
                    )
                &&& links.len() == linked_size(chosen, chat_id, chosen.len() as int)
            }
        }),
{
    let chosen = rich_recap::chosen_messages(text::pieces(group, ','), numbers, 0, Seq::empty());
    let all = Seq::new(
        chosen.len(),
        |i: int| rich_recap::message_link(i + 1, chat_id, chosen[i] as int),
    );
    if chat_type == "supergroup"@ {
        reveal_strlit(" ");
        if chosen.len() == 1 {
            reveal_with_fuel(text::join_spec, 2);
            assert(text::join_spec(all, " "@) =~= all[0]);
        }
        lemma_joined_size(chosen, chat_id, all, chosen.len() as int);
        assert(all.take(all.len() as int) =~= all);
        assert forall|j: int| 0 <= j < chosen.len() implies text::occurs(
            text::join_spec(all, " "@),
            #[trigger] rich_recap::message_link(j + 1, chat_id, chosen[j] as int),
        ) by {
            text::lemma_join_holds(all, " "@, j);
            assert(all[j] == rich_recap::message_link(j + 1, chat_id, chosen[j] as int));
        }
    }
}

/// The length of the first `n` links, with a blank between each two.
pub open spec fn linked_size(chosen: Seq<i64>, chat_id: int, n: int) -> int
    decreases n,
{
    if n <= 0 {
        0
    } else {
        linked_size(chosen, chat_id, n - 1) + rich_recap::message_link(
            n,
            chat_id,
            chosen[n - 1] as int,
        ).len() + if n > 1 {
            1int
        } else {
            0int
        }
    }
}

proof fn lemma_joined_size(chosen: Seq<i64>, chat_id: int, all: Seq<Seq<char>>, n: int)
    requires
        0 <= n <= all.len(),
        all.len() == chosen.len(),
        forall|j: int|
            0 <= j < all.len() ==> #[trigger] all[j] == rich_recap::message_link(
                j + 1,
                chat_id,
                chosen[j] as int,
            ),
    ensures
        text::join_spec(all.take(n), " "@).len() == linked_size(chosen, chat_id, n),
    decreases n,
{
    reveal_strlit(" ");
    if n > 0 {
        lemma_joined_size(chosen, chat_id, all, n - 1);
        assert(all.take(n).drop_last() =~= all.take(n - 1));
        assert(all.take(n).last() == all[n - 1]);
    }
}

} // verus!
