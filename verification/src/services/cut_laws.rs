//! What holds of where a text is cut: at the last break in the second half of what fits,
//! and in front of what must stay whole.

use vstd::prelude::*;

use crate::services::rich_recap;
use crate::services::rich_split::{self, Protection};
use crate::text;
use crate::utf16;

verus! {

/// A character behind which a text may well be cut.
pub open spec fn breaks(c: char) -> bool {
    seq!['\n', ' ', '\t', '。', '！', '？', '；'].contains(c)
}

proof fn lemma_breaks(c: char)
    ensures
        breaks(c) <==> rich_split::is_break(c),
{
    let all = seq!['\n', ' ', '\t', '。', '！', '？', '；'];
    assert(all[0] == '\n' && all[1] == ' ' && all[2] == '\t' && all[3] == '。' && all[4] == '！'
        && all[5] == '？' && all[6] == '；');
    if all.contains(c) {
        let k = choose|k: int| 0 <= k < all.len() && all[k] == c;
        assert(k == 0 || k == 1 || k == 2 || k == 3 || k == 4 || k == 5 || k == 6);
    }
}

/// The cut comes behind the last break in the second half; without one there, everything
/// that fits is taken.
pub proof fn lemma_cut_behind_the_last_break(s: Seq<char>, limit: int, i: int)
    requires
        1 <= limit <= s.len(),
    ensures
        ({
            let cut = rich_split::preferred_cut(s, limit);
            &&& limit / 2 < cut <= limit
            &&& cut < limit ==> breaks(s[cut - 1])
            &&& cut <= i < limit && limit / 2 <= i ==> !breaks(s[i])
            &&& cut == limit || limit / 2 <= cut - 1
        }),
{
    lemma_preferred_below(s, limit, limit / 2, limit - 1, i);
    let cut = rich_split::preferred_cut(s, limit);
    lemma_breaks(s[cut - 1]);
    lemma_breaks(s[i]);
}

proof fn lemma_preferred_below(s: Seq<char>, limit: int, low: int, k: int, i: int)
    requires
        0 <= low < limit <= s.len(),
        low - 1 <= k < limit,
    ensures
        ({
            let cut = rich_split::preferred_from(s, limit, low, k);
            &&& cut == limit || (low < cut <= k + 1 && rich_split::is_break(s[cut - 1]))
            &&& cut == limit && low <= i <= k && !(k == limit - 1 && i == k)
                ==> !rich_split::is_break(s[i]) || cut == k + 1
            &&& cut < limit && cut <= i <= k ==> !rich_split::is_break(s[i])
        }),
    decreases k - low + 1,
{
    if k >= low && !rich_split::is_break(s[k]) {
        lemma_preferred_below(s, limit, low, k - 1, i);
    }
}

/// Whether a cut falls into a span.
pub open spec fn splits(span: (int, int), cut: int) -> bool {
    span.0 < cut < span.1
}

/// The cut moves in front of every span that it would split, and to the start of one of
/// them; where it splits none, it stays.
pub proof fn lemma_cut_before_what_it_splits(spans: Seq<(int, int)>, cut: int, i: int)
    requires
        cut >= 1,
    ensures
        ({
            let moved = rich_split::earliest_broken(spans, cut);
            &&& 1 <= moved <= cut
            &&& moved < cut ==> exists|k: int|
                #![trigger spans[k]]
                0 <= k < spans.len() && splits(spans[k], cut) && moved == spans[k].0
            &&& 0 <= i < spans.len() && splits(spans[i], cut) && spans[i].0 > 0 ==> moved
                <= spans[i].0
        }),
    decreases spans.len(),
{
    if spans.len() > 0 {
        let fewer = spans.drop_last();
        lemma_cut_before_what_it_splits(fewer, cut, i);
        let rest = rich_split::earliest_broken(fewer, cut);
        let n = spans.len() - 1;
        assert(spans[n] == spans.last());
        if rest < cut {
            let k = choose|k: int|
                #![trigger fewer[k]]
                0 <= k < fewer.len() && splits(fewer[k], cut) && rest == fewer[k].0;
            assert(spans[k] == fewer[k]);
        }
        if 0 <= i < n {
            assert(spans[i] == fewer[i]);
        }
    }
}

/// A text is cut at the place that was preferred where that splits nothing and does not
/// part a backslash from what it escapes.
pub proof fn lemma_cut_stays(s: Seq<char>, cut: int, limit: int, spans: Seq<(int, int)>)
    requires
        1 <= cut <= limit,
        forall|k: int| 0 <= k < spans.len() ==> !splits(#[trigger] spans[k], cut),
        cut < s.len() ==> s[cut - 1] != '\\',
    ensures
        rich_split::adjusted_cut(s, cut, limit, spans) == cut,
{
    lemma_nothing_leads(spans, cut, limit);
    lemma_cut_before_what_it_splits(spans, cut, 0);
}

proof fn lemma_nothing_leads(spans: Seq<(int, int)>, cut: int, limit: int)
    requires
        1 <= cut,
        forall|k: int| 0 <= k < spans.len() ==> !splits(#[trigger] spans[k], cut),
    ensures
        rich_split::latest_leading(spans, cut, limit) == 0,
    decreases spans.len(),
{
    if spans.len() > 0 {
        let fewer = spans.drop_last();
        assert forall|k: int| 0 <= k < fewer.len() implies !splits(#[trigger] fewer[k], cut) by {
            assert(fewer[k] == spans[k]);
        }
        lemma_nothing_leads(fewer, cut, limit);
        assert(!splits(spans[spans.len() - 1], cut));
    }
}

/// A span that the cut would split stays whole behind the cut, unless the text starts with
/// it or with the backslash before it.
pub proof fn lemma_spans_stay_whole(
    s: Seq<char>,
    cut: int,
    limit: int,
    spans: Seq<(int, int)>,
    i: int,
)
    requires
        1 <= cut <= limit,
        0 <= i < spans.len(),
        splits(spans[i], cut),
        spans[i].0 > 1,
        forall|k: int| 0 <= k < spans.len() && splits(#[trigger] spans[k], cut) ==> spans[k].0 > 1,
    ensures
        1 <= rich_split::adjusted_cut(s, cut, limit, spans) <= spans[i].0,
{
    lemma_cut_before_what_it_splits(spans, cut, i);
    let moved = rich_split::earliest_broken(spans, cut);
    let k = choose|k: int|
        #![trigger spans[k]]
        0 <= k < spans.len() && splits(spans[k], cut) && moved == spans[k].0;
    assert(splits(spans[k], cut));
}

/// A cut never comes right behind a backslash, unless it comes behind the first character.
pub proof fn lemma_backslash_keeps_its_character(
    s: Seq<char>,
    cut: int,
    limit: int,
    spans: Seq<(int, int)>,
)
    requires
        2 <= cut <= limit <= s.len(),
        cut < s.len(),
        s[cut - 1] == '\\',
        forall|k: int| 0 <= k < spans.len() ==> !splits(#[trigger] spans[k], cut),
    ensures
        rich_split::adjusted_cut(s, cut, limit, spans) == cut - 1,
{
    lemma_nothing_leads(spans, cut, limit);
    lemma_cut_before_what_it_splits(spans, cut, 0);
}

/// A text that fits is not cut.
pub proof fn lemma_fitting_text_is_whole(s: Seq<char>, limit: int, protection: Protection)
    requires
        limit >= 0,
        utf16::units(s) <= limit,
    ensures
        rich_split::cut_fragment(s, limit, protection) == (s, Seq::<char>::empty()),
{
    rich_split::lemma_fitting(s, limit);
}

/// What stands in for a condensed recap: all details on a line where they are short, and
/// the default where there are none.
pub proof fn lemma_short_details_stand_in(details: Seq<Seq<char>>, default: Seq<char>)
    requires
        utf16::units(text::trimmed(text::join_spec(details, " "@))) <= 120,
    ensures
        ({
            let said = text::trimmed(text::join_spec(details, " "@));
            &&& said.len() > 0 ==> rich_split::fallback_summary(details, default) == said
            &&& said.len() == 0 ==> rich_split::fallback_summary(details, default)
                == text::trimmed(default)
        }),
{
    let said = text::trimmed(text::join_spec(details, " "@));
    lemma_fitting_text_is_whole(said, 120, Protection::RichMarkdown);
    text::lemma_trim_idempotent(text::join_spec(details, " "@));
}

/// A character that means something in rich text.
pub open spec fn meaningful(c: char) -> bool {
    seq![
        '\\', '*', '_', '{', '}', '[', ']', '(', ')', '#', '+', '-', '.', '!', '|', '>', '<', '~', '`',
    ].contains(c)
}

proof fn lemma_meaningful(c: char)
    ensures
        meaningful(c) <==> rich_recap::escapable(c),
{
    let all = seq![
        '\\', '*', '_', '{', '}', '[', ']', '(', ')', '#', '+', '-', '.', '!', '|', '>', '<', '~', '`',
    ];
    assert(all[0] == '\\' && all[1] == '*' && all[2] == '_' && all[3] == '{' && all[4] == '}');
    assert(all[5] == '[' && all[6] == ']' && all[7] == '(' && all[8] == ')' && all[9] == '#');
    assert(all[10] == '+' && all[11] == '-' && all[12] == '.' && all[13] == '!' && all[14] == '|');
    assert(all[15] == '>' && all[16] == '<' && all[17] == '~' && all[18] == '`');
    if all.contains(c) {
        let k = choose|k: int| 0 <= k < all.len() && all[k] == c;
        assert(rich_recap::escapable(all[k]));
    }
}

/// A text is escaped character by character: one that means something gets a backslash,
/// and every other stays.
pub proof fn lemma_escaped_by_character(s: Seq<char>, more: char)
    ensures
        rich_recap::escaped_from(s.push(more), 0) == rich_recap::escaped_from(s, 0) + if meaningful(
            more,
        ) {
            seq!['\\', more]
        } else {
            seq![more]
        },
{
    lemma_meaningful(more);
    lemma_escaped_at(s, more, 0);
}

proof fn lemma_escaped_at(s: Seq<char>, more: char, i: int)
    requires
        0 <= i <= s.len(),
    ensures
        rich_recap::escaped_from(s.push(more), i) == rich_recap::escaped_from(s, i)
            + if rich_recap::escapable(more) {
            seq!['\\', more]
        } else {
            seq![more]
        },
    decreases s.len() - i,
{
    let longer = s.push(more);
    let end = if rich_recap::escapable(more) {
        seq!['\\', more]
    } else {
        seq![more]
    };
    if i < s.len() {
        assert(longer[i] == s[i]);
        lemma_escaped_at(s, more, i + 1);
    } else {
        assert(longer[i] == more);
        assert(rich_recap::escaped_from(longer, i + 1) =~= Seq::<char>::empty());
    }
    assert(rich_recap::escaped_from(longer, i) =~= rich_recap::escaped_from(s, i) + end);
}

/// A line that is one already, and trimmed, is escaped as it stands.
pub proof fn lemma_escaped_line(s: Seq<char>)
    requires
        text::trimmed(s) == s,
        !s.contains('\r'),
        !s.contains('\n'),
    ensures
        rich_recap::escaped(s) == rich_recap::escaped_from(s, 0),
{
    reveal_strlit("\r\n");
    reveal_strlit("\r");
    reveal_strlit("\n");
    assert forall|k: int| !text::matches_at(s, "\r\n"@, k) by {
        if text::matches_at(s, "\r\n"@, k) {
            assert(s.subrange(k, k + 2)[0] == '\r');
            assert(s.contains(s[k]));
        }
    }
    assert forall|k: int| !text::matches_at(s, "\r"@, k) by {
        if text::matches_at(s, "\r"@, k) {
            assert(s.subrange(k, k + 1)[0] == '\r');
            assert(s.contains(s[k]));
        }
    }
    assert forall|k: int| !text::matches_at(s, "\n"@, k) by {
        if text::matches_at(s, "\n"@, k) {
            assert(s.subrange(k, k + 1)[0] == '\n');
            assert(s.contains(s[k]));
        }
    }
    crate::text_laws::lemma_nothing_to_replace(s, "\r\n"@, " "@);
    crate::text_laws::lemma_nothing_to_replace(s, "\r"@, " "@);
    crate::text_laws::lemma_nothing_to_replace(s, "\n"@, " "@);
}

} // verus!
