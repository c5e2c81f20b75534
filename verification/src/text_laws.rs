//! What holds of texts: what replacing does and leaves, and what the case of a letter is.

use vstd::prelude::*;

use crate::text;

verus! {

proof fn lemma_replaced_behind(
    s: Seq<char>,
    pattern: Seq<char>,
    to: Seq<char>,
    cut: int,
    i: int,
)
    requires
        0 <= cut <= i <= s.len(),
    ensures
        text::replaced_from(s, pattern, to, i) == text::replaced_from(
            s.skip(cut),
            pattern,
            to,
            i - cut,
        ),
    decreases s.len() - i,
{
    let rest = s.skip(cut);
    if i < s.len() {
        assert(rest[i - cut] == s[i]);
        if i + pattern.len() <= s.len() {
            assert(rest.subrange(i - cut, i - cut + pattern.len()) =~= s.subrange(
                i,
                i + pattern.len(),
            ));
        }
        assert(text::matches_at(s, pattern, i) <==> text::matches_at(rest, pattern, i - cut));
        if pattern.len() > 0 && text::matches_at(s, pattern, i) {
            lemma_replaced_behind(s, pattern, to, cut, i + pattern.len());
        } else {
            lemma_replaced_behind(s, pattern, to, cut, i + 1);
        }
    }
}

proof fn lemma_replaced_up_to(
    s: Seq<char>,
    pattern: Seq<char>,
    to: Seq<char>,
    at: int,
    i: int,
)
    requires
        0 <= i <= at <= s.len(),
        forall|k: int| 0 <= k < at ==> !text::matches_at(s, pattern, k),
    ensures
        text::replaced_from(s, pattern, to, i) == s.subrange(i, at) + text::replaced_from(
            s,
            pattern,
            to,
            at,
        ),
    decreases at - i,
{
    if i < at {
        lemma_replaced_up_to(s, pattern, to, at, i + 1);
        assert(seq![s[i]] + s.subrange(i + 1, at) =~= s.subrange(i, at));
        assert(text::replaced_from(s, pattern, to, i) =~= s.subrange(i, at)
            + text::replaced_from(s, pattern, to, at));
    } else {
        assert(s.subrange(i, at) =~= Seq::<char>::empty());
        assert(text::replaced_from(s, pattern, to, i) =~= s.subrange(i, at)
            + text::replaced_from(s, pattern, to, at));
    }
}

/// Replacing leaves a text without the pattern as it is.
pub proof fn lemma_nothing_to_replace(s: Seq<char>, pattern: Seq<char>, to: Seq<char>)
    requires
        !text::occurs(s, pattern),
    ensures
        text::replaced(s, pattern, to) == s,
{
    assert forall|k: int| 0 <= k < s.len() implies !text::matches_at(s, pattern, k) by {
        if text::matches_at(s, pattern, k) {
            assert(text::occurs(s, pattern));
        }
    }
    lemma_replaced_up_to(s, pattern, to, s.len() as int, 0);
    assert(s.subrange(0, s.len() as int) =~= s);
    assert(text::replaced_from(s, pattern, to, s.len() as int) =~= Seq::<char>::empty());
    assert(text::replaced(s, pattern, to) =~= s);
}

/// The first place of the pattern is replaced, what comes before it stays, and what comes
/// behind it is replaced on its own.
pub proof fn lemma_first_is_replaced(
    before: Seq<char>,
    pattern: Seq<char>,
    behind: Seq<char>,
    to: Seq<char>,
)
    requires
        pattern.len() > 0,
        text::first_at(before + pattern + behind, pattern, before.len() as int),
    ensures
        text::replaced(before + pattern + behind, pattern, to) == before + to + text::replaced(
            behind,
            pattern,
            to,
        ),
{
    let s = before + pattern + behind;
    let at = before.len() as int;
    let past = at + pattern.len();
    lemma_replaced_up_to(s, pattern, to, at, 0);
    lemma_replaced_behind(s, pattern, to, past, past);
    assert(s.skip(past) =~= behind);
    assert(s.subrange(0, at) =~= before);
    assert(text::replaced(s, pattern, to) =~= before + to + text::replaced(behind, pattern, to));
}

/// A character is replaced wherever it stands, and no other is: one more character at the
/// end is replaced or stays.
pub proof fn lemma_characters_are_replaced(s: Seq<char>, more: char, c: char, to: Seq<char>)
    ensures
        text::replaced(s.push(more), seq![c], to) == text::replaced(s, seq![c], to) + if more == c {
            to
        } else {
            seq![more]
        },
{
    lemma_characters_from(s, more, c, to, 0);
}

proof fn lemma_characters_from(s: Seq<char>, more: char, c: char, to: Seq<char>, i: int)
    requires
        0 <= i <= s.len(),
    ensures
        text::replaced_from(s.push(more), seq![c], to, i) == text::replaced_from(
            s,
            seq![c],
            to,
            i,
        ) + if more == c {
            to
        } else {
            seq![more]
        },
    decreases s.len() - i,
{
    let longer = s.push(more);
    let pattern = seq![c];
    let end = if more == c {
        to
    } else {
        seq![more]
    };
    assert(longer.subrange(i, i + 1) =~= seq![longer[i]]);
    assert(text::matches_at(longer, pattern, i) <==> longer[i] == c) by {
        assert(seq![longer[i]][0] == longer[i] && pattern[0] == c);
        if longer[i] == c {
            assert(seq![longer[i]] =~= pattern);
        }
    }
    if i < s.len() {
        assert(longer[i] == s[i]);
        assert(s.subrange(i, i + 1) =~= seq![s[i]]);
        lemma_characters_from(s, more, c, to, i + 1);
        assert(text::replaced_from(longer, pattern, to, i) =~= text::replaced_from(
            s,
            pattern,
            to,
            i,
        ) + end);
    } else {
        assert(longer[i] == more);
        assert(text::replaced_from(longer, pattern, to, i + 1) =~= Seq::<char>::empty());
        assert(text::replaced_from(s, pattern, to, i) =~= Seq::<char>::empty());
        assert(text::replaced_from(longer, pattern, to, i) =~= end);
    }
}

/// A text that starts and ends with something that shows is trimmed already.
pub proof fn lemma_trimmed_already(s: Seq<char>)
    requires
        s.len() > 0,
        !text::is_white(s[0]),
        !text::is_white(s.last()),
    ensures
        text::trimmed(s) == s,
{
    let (a, b) = text::lemma_trimmed_shape(s);
    if a > 0 {
        assert(text::is_white(s[0]));
    }
    if b < s.len() {
        assert(text::is_white(s[s.len() - 1]));
    }
    assert(s.subrange(0, s.len() as int) =~= s);
}

/// Capital letters of the Latin alphabet become small, and nothing else changes.
pub proof fn lemma_small_letters(s: Seq<char>, i: int)
    requires
        0 <= i < s.len(),
    ensures
        text::ascii_lower(s).len() == s.len(),
        'A' <= s[i] <= 'Z' ==> text::ascii_lower(s)[i] as int == s[i] as int + 32,
        !('A' <= s[i] <= 'Z') ==> text::ascii_lower(s)[i] == s[i],
{
}

} // verus!
