//! Cutting recap text to Telegram's size limits.
//!
//! Sizes are UTF-16 code units. A cut prefers the end of a sentence or word in
//! the second half of the budget, and moves out of spans that would break apart.

use vstd::prelude::*;

use crate::services::patterns;
use crate::services::rich_recap::{
    self, normalize_rich_markdown, rich_markdown_fence_marker, RICH_MESSAGE_UTF16_UNIT_LIMIT,
    RICH_RECAP_DETAILS_CLOSE, RICH_RECAP_DETAILS_OPEN, CONDENSED_SUMMARY_FALLBACK_UNIT_LIMIT,
};
use crate::text::{
    self, chars_of, contains_char, join, joined2, joined3, prefix_to, split, starts_with, string_of,
    trim,
};
use crate::utf16::{self, count_units, weight};

verus! {

// ---------------------------------------------------------------------------
// One cut
// ---------------------------------------------------------------------------

/// Which spans a cut must not break apart.
#[derive(Debug, Clone, Copy, PartialEq, Eq, Structural)]
pub enum Protection {
    /// Links and inline spans of Rich Markdown.
    RichMarkdown,
    /// Citation labels with their addresses.
    Citations,
}

pub open spec fn protected_by(protection: Protection) -> Seq<Seq<char>> {
    match protection {
        Protection::RichMarkdown => seq![
            patterns::LINK_SPAN_PATTERN@,
            patterns::BOLD_PATTERN@,
            patterns::UNDERLINE_PATTERN@,
            patterns::STRIKE_PATTERN@,
            patterns::INLINE_CODE_PATTERN@,
            patterns::ITALIC_PATTERN@,
            patterns::UNDERSCORE_ITALIC_PATTERN@,
        ],
        Protection::Citations => seq![patterns::CITATION_PATTERN@],
    }
}

/// The positions of the spans that the first `n` expressions protect in `s`.
pub open spec fn spans_of(s: Seq<char>, expressions: Seq<Seq<char>>, n: int) -> Seq<(int, int)>
    decreases n,
{
    if n <= 0 {
        Seq::empty()
    } else {
        spans_of(s, expressions, n - 1) + patterns::positions_of(
            s,
            patterns::regex_spans(expressions[n - 1], s),
        )
    }
}

/// The positions of the protected spans of `s`.
pub open spec fn protected_spans(s: Seq<char>, protection: Protection) -> Seq<(int, int)> {
    spans_of(s, protected_by(protection), protected_by(protection).len() as int)
}

/// How many scalar values from `i` on fit `limit` code units of which `used` are taken.
pub open spec fn fitting_from(s: Seq<char>, limit: int, i: int, used: int) -> int
    decreases s.len() - i,
{
    if i < 0 || i >= s.len() {
        s.len() as int
    } else if used + utf16::char_weight(s[i]) > limit {
        i
    } else {
        fitting_from(s, limit, i + 1, used + utf16::char_weight(s[i]))
    }
}

/// How many leading scalar values of `s` fit `limit` code units.
pub open spec fn fitting(s: Seq<char>, limit: int) -> int {
    fitting_from(s, limit, 0, 0)
}

/// The characters after which a cut reads naturally.
pub open spec fn is_break(c: char) -> bool {
    c == '\n' || c == ' ' || c == '\t' || c == '。' || c == '！' || c == '？' || c == '；'
}

/// The position behind the last break of `s[low..=i]`, or `limit`.
pub open spec fn preferred_from(s: Seq<char>, limit: int, low: int, i: int) -> int
    decreases i - low + 1,
{
    if i < low {
        limit
    } else if is_break(s[i]) {
        i + 1
    } else {
        preferred_from(s, limit, low, i - 1)
    }
}

/// Where to cut `s` for a budget of `limit` scalar values: behind the last break
/// in its second half, or at the budget.
pub open spec fn preferred_cut(s: Seq<char>, limit: int) -> int {
    preferred_from(s, limit, limit / 2, limit - 1)
}

/// The leftmost start, past the beginning, of the spans that `cut` would break.
pub open spec fn earliest_broken(spans: Seq<(int, int)>, cut: int) -> int
    decreases spans.len(),
{
    if spans.len() == 0 {
        cut
    } else {
        let rest = earliest_broken(spans.drop_last(), cut);
        let span = spans.last();
        if span.0 < cut < span.1 && 0 < span.0 < rest {
            span.0
        } else {
            rest
        }
    }
}

/// The rightmost end, within `limit`, of the spans at the beginning that `cut` would break.
pub open spec fn latest_leading(spans: Seq<(int, int)>, cut: int, limit: int) -> int
    decreases spans.len(),
{
    if spans.len() == 0 {
        0
    } else {
        let rest = latest_leading(spans.drop_last(), cut, limit);
        let span = spans.last();
        if span.0 == 0 && cut < span.1 <= limit && 0 < cut && span.1 > rest {
            span.1
        } else {
            rest
        }
    }
}

/// `cut` moved out of the protected spans, where that leaves a usable cut, and off
/// an escape.
pub open spec fn adjusted_cut(
    s: Seq<char>,
    cut: int,
    limit: int,
    spans: Seq<(int, int)>,
) -> int {
    let before = earliest_broken(spans, cut);
    let leading = latest_leading(spans, cut, limit);
    let moved = if before == cut && leading != 0 {
        leading
    } else {
        before
    };
    let settled = if 0 < moved < s.len() && s[moved - 1] == '\\' {
        moved - 1
    } else {
        moved
    };
    if settled == 0 || settled > limit {
        cut
    } else {
        settled
    }
}

/// A cut makes progress even where one scalar value exceeds the budget.
pub open spec fn rune_budget(s: Seq<char>, limit: int) -> int {
    if fitting(s, limit) < 1 {
        1
    } else {
        fitting(s, limit)
    }
}

/// The part of `s` in which spans are looked for.
pub open spec fn lookahead(s: Seq<char>, budget: int) -> Seq<char> {
    if s.len() > 2 * budget {
        s.take(2 * budget)
    } else {
        s
    }
}

/// `s` cut to `limit` code units around the spans at `spans`.
pub open spec fn cut_with(s: Seq<char>, limit: int, spans: Seq<(int, int)>) -> (
    Seq<char>,
    Seq<char>,
) {
    if fitting(s, limit) >= s.len() {
        (s, Seq::empty())
    } else {
        let budget = rune_budget(s, limit);
        let cut = adjusted_cut(s, preferred_cut(s, budget), budget, spans);
        let head = text::trimmed(s.subrange(0, cut));
        if head.len() == 0 {
            (s.subrange(0, budget), text::trimmed(s.subrange(budget, s.len() as int)))
        } else {
            (head, text::trimmed(s.subrange(cut, s.len() as int)))
        }
    }
}

/// `s` cut to `limit` code units, and what remains.
pub open spec fn cut_fragment(s: Seq<char>, limit: int, protection: Protection) -> (
    Seq<char>,
    Seq<char>,
) {
    cut_with(
        s,
        limit,
        protected_spans(lookahead(s, rune_budget(s, limit)), protection),
    )
}

proof fn lemma_fitting_from(s: Seq<char>, limit: int, i: int, used: int)
    requires
        0 <= i <= s.len(),
        used == utf16::units(s.subrange(0, i)),
        used <= limit,
    ensures
        ({
            let n = fitting_from(s, limit, i, used);
            &&& i <= n <= s.len()
            &&& utf16::units(s.subrange(0, n)) <= limit
            &&& n < s.len() ==> utf16::units(s.subrange(0, n)) + utf16::char_weight(s[n]) > limit
        }),
    decreases s.len() - i,
{
    if i < s.len() {
        assert(s.subrange(0, i + 1).drop_last() =~= s.subrange(0, i));
        if used + utf16::char_weight(s[i]) <= limit {
            lemma_fitting_from(s, limit, i + 1, used + utf16::char_weight(s[i]));
        }
    } else {
        assert(s.subrange(0, i) =~= s);
    }
}

/// What fits a budget is the longest prefix within it.
pub proof fn lemma_fitting(s: Seq<char>, limit: int)
    requires
        limit >= 0,
    ensures
        0 <= fitting(s, limit) <= s.len(),
        utf16::units(s.subrange(0, fitting(s, limit))) <= limit,
        fitting(s, limit) < s.len() ==> utf16::units(s) > limit,
        utf16::units(s) > limit ==> fitting(s, limit) < s.len(),
{
    assert(s.subrange(0, 0) =~= Seq::<char>::empty());
    lemma_fitting_from(s, limit, 0, 0);
    let n = fitting(s, limit);
    if n < s.len() {
        assert(s.subrange(0, n + 1).drop_last() =~= s.subrange(0, n));
        utf16::lemma_units_subrange(s, 0, n + 1);
    } else {
        assert(s.subrange(0, n) =~= s);
    }
}

proof fn lemma_preferred_from(s: Seq<char>, limit: int, low: int, i: int)
    requires
        0 <= low,
        i < limit <= s.len(),
        1 <= limit,
    ensures
        1 <= preferred_from(s, limit, low, i) <= limit,
    decreases i - low + 1,
{
    if i >= low && !is_break(s[i]) {
        lemma_preferred_from(s, limit, low, i - 1);
    }
}

proof fn lemma_earliest_broken(spans: Seq<(int, int)>, cut: int)
    requires
        cut >= 1,
    ensures
        1 <= earliest_broken(spans, cut) <= cut,
    decreases spans.len(),
{
    if spans.len() > 0 {
        lemma_earliest_broken(spans.drop_last(), cut);
    }
}

proof fn lemma_latest_leading(spans: Seq<(int, int)>, cut: int, limit: int)
    ensures
        0 <= latest_leading(spans, cut, limit),
        latest_leading(spans, cut, limit) != 0 ==> latest_leading(spans, cut, limit) <= limit,
    decreases spans.len(),
{
    if spans.len() > 0 {
        lemma_latest_leading(spans.drop_last(), cut, limit);
    }
}

/// An adjusted cut stays within the budget and takes at least one scalar value.
proof fn lemma_adjusted_cut(s: Seq<char>, cut: int, limit: int, spans: Seq<(int, int)>)
    requires
        1 <= cut <= limit,
    ensures
        1 <= adjusted_cut(s, cut, limit, spans) <= limit,
{
    lemma_earliest_broken(spans, cut);
    lemma_latest_leading(spans, cut, limit);
}

/// A cut takes something, leaves less, and stays within the budget unless the
/// budget is too small for one scalar value.
pub proof fn lemma_cut_with(s: Seq<char>, limit: int, spans: Seq<(int, int)>)
    requires
        limit >= 0,
        s.len() > 0,
    ensures
        cut_with(s, limit, spans).0.len() > 0,
        cut_with(s, limit, spans).1.len() < s.len(),
        limit >= 2 || utf16::char_weight(s[0]) <= limit
            ==> utf16::units(cut_with(s, limit, spans).0) <= limit,
{
    lemma_fitting(s, limit);
    let n = fitting(s, limit);
    if n < s.len() {
        let budget = rune_budget(s, limit);
        lemma_preferred_from(s, budget, budget / 2, budget - 1);
        let preferred = preferred_cut(s, budget);
        lemma_adjusted_cut(s, preferred, budget, spans);
        let cut = adjusted_cut(s, preferred, budget, spans);
        text::lemma_trim_idempotent(s.subrange(cut, s.len() as int));
        text::lemma_trim_idempotent(s.subrange(budget, s.len() as int));
        text::lemma_trim_idempotent(s.subrange(0, cut));
        if limit >= 2 || utf16::char_weight(s[0]) <= limit {
            if n < 1 {
                assert(s.subrange(0, n) =~= Seq::<char>::empty());
                lemma_fitting_one(s, limit);
            }
            assert(budget == n);
            let full = s.subrange(0, budget);
            assert(s.subrange(0, cut) =~= full.subrange(0, cut));
            utf16::lemma_units_subrange(full, 0, cut);
            let (a, b) = text::lemma_trimmed_shape(s.subrange(0, cut));
            utf16::lemma_units_subrange(s.subrange(0, cut), a, b);
        }
    } else {
        assert(s.subrange(0, n) =~= s);
    }
}

proof fn lemma_fitting_one(s: Seq<char>, limit: int)
    requires
        s.len() > 0,
        limit >= 2 || utf16::char_weight(s[0]) <= limit,
        limit >= 0,
    ensures
        fitting(s, limit) >= 1,
{
    assert(s.subrange(0, 1).drop_last() =~= Seq::<char>::empty());
    assert(utf16::units(s.subrange(0, 1)) == utf16::char_weight(s[0])) by {
        assert(s.subrange(0, 1).last() == s[0]);
        assert(utf16::units(Seq::<char>::empty()) == 0);
    }
    lemma_fitting_from(s, limit, 1, utf16::char_weight(s[0]) as int);
}

/// The visible characters of a text.
pub open spec fn visible(s: Seq<char>) -> Seq<char>
    decreases s.len(),
{
    if s.len() == 0 {
        Seq::empty()
    } else if text::is_white(s.last()) {
        visible(s.drop_last())
    } else {
        visible(s.drop_last()).push(s.last())
    }
}

pub proof fn lemma_visible_add(a: Seq<char>, b: Seq<char>)
    ensures
        visible(a + b) == visible(a) + visible(b),
    decreases b.len(),
{
    if b.len() == 0 {
        assert(a + b =~= a);
        assert(visible(a) + visible(b) =~= visible(a));
    } else {
        assert((a + b).drop_last() =~= a + b.drop_last());
        lemma_visible_add(a, b.drop_last());
        assert(visible(a) + visible(b) =~= visible(a + b));
    }
}

pub proof fn lemma_visible_white(s: Seq<char>)
    requires
        forall|k: int| 0 <= k < s.len() ==> text::is_white(#[trigger] s[k]),
    ensures
        visible(s) == Seq::<char>::empty(),
    decreases s.len(),
{
    if s.len() > 0 {
        let t = s.drop_last();
        assert forall|k: int| 0 <= k < t.len() implies text::is_white(#[trigger] t[k]) by {
            assert(t[k] == s[k]);
        }
        lemma_visible_white(t);
        assert(text::is_white(s[s.len() - 1]));
    }
}

/// Trimming keeps every visible character.
pub proof fn lemma_visible_trimmed(s: Seq<char>)
    ensures
        visible(text::trimmed(s)) == visible(s),
{
    let (a, b) = text::lemma_trimmed_shape(s);
    let before = s.subrange(0, a);
    let kept = s.subrange(a, b);
    let after = s.subrange(b, s.len() as int);
    assert(s =~= before + kept + after);
    lemma_visible_add(before + kept, after);
    lemma_visible_add(before, kept);
    assert forall|k: int| 0 <= k < before.len() implies text::is_white(#[trigger] before[k]) by {
        assert(before[k] == s[k]);
    }
    lemma_visible_white(before);
    assert forall|k: int| 0 <= k < after.len() implies text::is_white(#[trigger] after[k]) by {
        assert(after[k] == s[k + b]);
    }
    lemma_visible_white(after);
    assert(visible(s) =~= visible(kept));
}

/// A cut loses no visible character.
pub proof fn lemma_cut_keeps_visible(s: Seq<char>, limit: int, spans: Seq<(int, int)>)
    requires
        limit >= 0,
        s.len() > 0,
    ensures
        visible(cut_with(s, limit, spans).0) + visible(cut_with(s, limit, spans).1) == visible(s),
{
    lemma_fitting(s, limit);
    if fitting(s, limit) >= s.len() {
        assert(visible(s) + visible(Seq::<char>::empty()) =~= visible(s));
    } else {
        let budget = rune_budget(s, limit);
        lemma_preferred_from(s, budget, budget / 2, budget - 1);
        lemma_adjusted_cut(s, preferred_cut(s, budget), budget, spans);
        let cut = adjusted_cut(s, preferred_cut(s, budget), budget, spans);
        let head = s.subrange(0, cut);
        let tail = s.subrange(cut, s.len() as int);
        lemma_visible_trimmed(head);
        lemma_visible_trimmed(tail);
        assert(s =~= head + tail);
        lemma_visible_add(head, tail);
        let head2 = s.subrange(0, budget);
        let tail2 = s.subrange(budget, s.len() as int);
        lemma_visible_trimmed(tail2);
        assert(s =~= head2 + tail2);
        lemma_visible_add(head2, tail2);
    }
}

fn rune_count_within_utf16_units(runes: &Vec<char>, limit: usize) -> (n: usize)
    ensures
        n == fitting(runes@, limit as int),
        n <= runes.len(),
{
    let mut used: u128 = 0;
    let mut i: usize = 0;
    while i < runes.len()
        invariant
            i <= runes.len(),
            used <= limit,
            fitting_from(runes@, limit as int, i as int, used as int) == fitting(
                runes@,
                limit as int,
            ),
        decreases runes.len() - i,
    {
        let next: u128 = used + weight(runes[i]) as u128;
        if next > limit as u128 {
            return i;
        }
        used = next;
        i = i + 1;
    }
    i
}

fn preferred_fragment_cut(runes: &Vec<char>, limit: usize) -> (cut: usize)
    requires
        1 <= limit <= runes.len(),
    ensures
        cut == preferred_cut(runes@, limit as int),
        1 <= cut <= limit,
{
    proof {
        lemma_preferred_from(runes@, limit as int, limit as int / 2, limit - 1);
    }
    let low: usize = limit / 2;
    let mut i: usize = limit;
    while i > low
        invariant
            low <= i <= limit <= runes.len(),
            1 <= limit,
            preferred_from(runes@, limit as int, low as int, i - 1) == preferred_cut(
                runes@,
                limit as int,
            ),
            low == limit / 2,
        decreases i,
    {
        let c: char = runes[i - 1];
        if matches!(c, '\n' | ' ' | '\t' | '。' | '！' | '？' | '；') {
            return i;
        }
        i = i - 1;
    }
    limit
}

fn adjust_cut_for_protected_spans(
    runes: &Vec<char>,
    cut: usize,
    limit: usize,
    spans: &Vec<(usize, usize)>,
) -> (r: usize)
    requires
        1 <= cut <= limit,
    ensures
        r == adjusted_cut(runes@, cut as int, limit as int, patterns::as_positions(spans@)),
        1 <= r <= limit,
{
    let ghost all = patterns::as_positions(spans@);
    let mut start: usize = cut;
    let mut end: usize = 0;
    let mut i: usize = 0;
    while i < spans.len()
        invariant
            i <= spans.len(),
            1 <= cut <= limit,
            all == patterns::as_positions(spans@),
            start == earliest_broken(all.take(i as int), cut as int),
            end == latest_leading(all.take(i as int), cut as int, limit as int),
        decreases spans.len() - i,
    {
        let span: (usize, usize) = spans[i];
        assert(all.take(i + 1).drop_last() =~= all.take(i as int));
        assert(all.take(i + 1).last() == (span.0 as int, span.1 as int));
        if span.0 < cut && cut < span.1 {
            if span.0 > 0 && span.0 < start {
                start = span.0;
            }
            if span.0 == 0 && span.1 <= limit && span.1 > end {
                end = span.1;
            }
        }
        i = i + 1;
    }
    assert(all.take(i as int) =~= all);
    proof {
        lemma_adjusted_cut(runes@, cut as int, limit as int, all);
        lemma_earliest_broken(all, cut as int);
    }
    let mut adjusted: usize = start;
    if adjusted == cut && end != 0 {
        adjusted = end;
    }
    if adjusted > 0 && adjusted < runes.len() && runes[adjusted - 1] == '\\' {
        adjusted = adjusted - 1;
    }
    if adjusted == 0 || adjusted > limit {
        cut
    } else {
        adjusted
    }
}

/// Cut `fragment` to `limit` code units around the spans at `spans`.
pub fn cut_around_spans(fragment: &str, limit: usize, spans: &Vec<(usize, usize)>) -> (r: (
    String,
    String,
))
    ensures
        (r.0@, r.1@) == cut_with(fragment@, limit as int, patterns::as_positions(spans@)),
{
    let runes: Vec<char> = chars_of(fragment);
    proof {
        lemma_fitting(fragment@, limit as int);
    }
    let mut budget: usize = rune_count_within_utf16_units(&runes, limit);
    if budget >= runes.len() {
        return (fragment.to_owned(), String::new());
    }
    if budget < 1 {
        budget = 1;
    }
    let preferred: usize = preferred_fragment_cut(&runes, budget);
    let cut: usize = adjust_cut_for_protected_spans(&runes, preferred, budget, spans);
    let head: String = trim(string_of(&runes, 0, cut).as_str());
    if head.as_str().is_empty() {
        let all: String = string_of(&runes, 0, budget);
        let tail: String = trim(string_of(&runes, budget, runes.len()).as_str());
        (all, tail)
    } else {
        let tail: String = trim(string_of(&runes, cut, runes.len()).as_str());
        (head, tail)
    }
}

fn add_spans(spans: &mut Vec<(usize, usize)>, pattern: &str, fragment: &str)
    requires
        patterns::is_recap_pattern(pattern@),
    ensures
        patterns::as_positions(final(spans)@) == patterns::as_positions(old(spans)@)
            + patterns::positions_of(fragment@, patterns::regex_spans(pattern@, fragment@)),
{
    let mut found: Vec<(usize, usize)> = patterns::match_positions(pattern, fragment);
    let ghost a = spans@;
    let ghost b = found@;
    spans.append(&mut found);
    assert(spans@ =~= a + b);
    assert(patterns::as_positions(spans@) =~= patterns::as_positions(a) + patterns::as_positions(
        b,
    ));
}

/// The positions of the protected spans of `fragment`.
fn find_protected_spans(fragment: &str, protection: Protection) -> (spans: Vec<(usize, usize)>)
    ensures
        patterns::as_positions(spans@) == protected_spans(fragment@, protection),
{
    let mut spans: Vec<(usize, usize)> = Vec::new();
    let ghost expressions = protected_by(protection);
    assert(patterns::as_positions(spans@) =~= spans_of(fragment@, expressions, 0));
    match protection {
        Protection::RichMarkdown => {
            add_spans(&mut spans, patterns::LINK_SPAN_PATTERN, fragment);
            assert(patterns::as_positions(spans@) == spans_of(fragment@, expressions, 1));
            add_spans(&mut spans, patterns::BOLD_PATTERN, fragment);
            assert(patterns::as_positions(spans@) == spans_of(fragment@, expressions, 2));
            add_spans(&mut spans, patterns::UNDERLINE_PATTERN, fragment);
            assert(patterns::as_positions(spans@) == spans_of(fragment@, expressions, 3));
            add_spans(&mut spans, patterns::STRIKE_PATTERN, fragment);
            assert(patterns::as_positions(spans@) == spans_of(fragment@, expressions, 4));
            add_spans(&mut spans, patterns::INLINE_CODE_PATTERN, fragment);
            assert(patterns::as_positions(spans@) == spans_of(fragment@, expressions, 5));
            add_spans(&mut spans, patterns::ITALIC_PATTERN, fragment);
            assert(patterns::as_positions(spans@) == spans_of(fragment@, expressions, 6));
            add_spans(&mut spans, patterns::UNDERSCORE_ITALIC_PATTERN, fragment);
            assert(patterns::as_positions(spans@) == spans_of(fragment@, expressions, 7));
        },
        Protection::Citations => {
            add_spans(&mut spans, patterns::CITATION_PATTERN, fragment);
            assert(patterns::as_positions(spans@) == spans_of(fragment@, expressions, 1));
        },
    }
    spans
}

fn split_fragment_at_preferred_cut(fragment: &str, limit: usize, protection: Protection) -> (r: (
    String,
    String,
))
    ensures
        (r.0@, r.1@) == cut_fragment(fragment@, limit as int, protection),
{
    let runes: Vec<char> = chars_of(fragment);
    proof {
        lemma_fitting(fragment@, limit as int);
    }
    let fits: usize = rune_count_within_utf16_units(&runes, limit);
    let budget: usize = if fits < 1 {
        1
    } else {
        fits
    };
    let bounded: String = if runes.len() >= budget && runes.len() - budget > budget {
        prefix_to(fragment, 2 * budget)
    } else {
        fragment.to_owned()
    };
    assert(bounded@ =~= lookahead(fragment@, budget as int));
    let spans: Vec<(usize, usize)> = find_protected_spans(bounded.as_str(), protection);
    cut_around_spans(fragment, limit, &spans)
}

// ---------------------------------------------------------------------------
// Plain text parts
// ---------------------------------------------------------------------------

/// The parts of `s`, each cut to `limit` code units.
pub open spec fn parts_of(s: Seq<char>, limit: int) -> Seq<Seq<char>>
    decreases s.len(),
    when limit >= 0
{
    if s.len() == 0 {
        Seq::empty()
    } else if utf16::units(s) > limit {
        proof {
            lemma_cut_with(
                s,
                limit,
                protected_spans(lookahead(s, rune_budget(s, limit)), Protection::Citations),
            );
        }
        let (head, tail) = cut_fragment(s, limit, Protection::Citations);
        seq![head] + parts_of(tail, limit)
    } else {
        seq![s]
    }
}

/// Split plain text by UTF-16 size while keeping citation labels with their addresses.
pub fn split_plain_text(text: &str, limit: usize) -> (parts: Vec<String>)
    ensures
        text::texts(parts@) == if limit == 0 {
            Seq::empty()
        } else {
            parts_of(text::trimmed(text@), limit as int)
        },
{
    let whole: String = trim(text);
    let mut parts: Vec<String> = Vec::new();
    assert(text::texts(parts@) =~= Seq::<Seq<char>>::empty());
    if whole.as_str().is_empty() || limit == 0 {
        return parts;
    }
    let mut remaining: String = whole;
    let ghost all = parts_of(text::trimmed(text@), limit as int);
    assert(text::texts(parts@) + parts_of(remaining@, limit as int) =~= all);
    while count_units(remaining.as_str()) > limit as u128
        invariant
            limit > 0,
            text::texts(parts@) + parts_of(remaining@, limit as int) == all,
        decreases remaining@.len(),
    {
        let ghost before = text::texts(parts@);
        let ghost rest = parts_of(remaining@, limit as int);
        proof {
            utf16::lemma_units_bounds(remaining@);
            lemma_cut_with(
                remaining@,
                limit as int,
                protected_spans(
                    lookahead(remaining@, rune_budget(remaining@, limit as int)),
                    Protection::Citations,
                ),
            );
        }
        let (head, tail) = split_fragment_at_preferred_cut(
            remaining.as_str(),
            limit,
            Protection::Citations,
        );
        parts.push(head);
        remaining = tail;
        assert(text::texts(parts@) =~= before.push(head@));
        assert(text::texts(parts@) + parts_of(remaining@, limit as int) =~= before + rest);
    }
    let ghost before = text::texts(parts@);
    if !remaining.as_str().is_empty() {
        parts.push(remaining);
        assert(text::texts(parts@) =~= before.push(remaining@));
    }
    assert(text::texts(parts@) =~= all);
    parts
}

/// The visible characters of texts, in order.
pub open spec fn visible_all(parts: Seq<Seq<char>>) -> Seq<char>
    decreases parts.len(),
{
    if parts.len() == 0 {
        Seq::empty()
    } else {
        visible_all(parts.drop_last()) + visible(parts.last())
    }
}

pub proof fn lemma_visible_all_add(a: Seq<Seq<char>>, b: Seq<Seq<char>>)
    ensures
        visible_all(a + b) == visible_all(a) + visible_all(b),
    decreases b.len(),
{
    if b.len() == 0 {
        assert(a + b =~= a);
        assert(visible_all(a) + visible_all(b) =~= visible_all(a));
    } else {
        assert((a + b).drop_last() =~= a + b.drop_last());
        lemma_visible_all_add(a, b.drop_last());
        assert(visible_all(a + b) =~= visible_all(a) + visible_all(b));
    }
}

pub proof fn lemma_visible_all_one(s: Seq<char>)
    ensures
        visible_all(seq![s]) == visible(s),
{
    let one = seq![s];
    assert(one.drop_last() =~= Seq::<Seq<char>>::empty());
    assert(visible_all(one.drop_last()) =~= Seq::<char>::empty());
    assert(one.last() == s);
    assert(visible_all(one) =~= visible(s));
}

/// The parts of a text hold its visible characters in order, no part is empty, and
/// with a limit of two or more no part exceeds it.
pub proof fn lemma_parts_keep_text_within_limit(s: Seq<char>, limit: int)
    requires
        limit >= 1,
    ensures
        visible_all(parts_of(s, limit)) == visible(s),
        forall|k: int| 0 <= k < parts_of(s, limit).len()
            ==> (#[trigger] parts_of(s, limit)[k]).len() > 0,
        limit >= 2 ==> forall|k: int|
            0 <= k < parts_of(s, limit).len() ==> utf16::units(#[trigger] parts_of(s, limit)[k])
                <= limit,
    decreases s.len(),
{
    let parts = parts_of(s, limit);
    if s.len() == 0 {
    } else if utf16::units(s) > limit {
        let spans = protected_spans(lookahead(s, rune_budget(s, limit)), Protection::Citations);
        lemma_cut_with(s, limit, spans);
        lemma_cut_keeps_visible(s, limit, spans);
        let (head, tail) = cut_fragment(s, limit, Protection::Citations);
        lemma_parts_keep_text_within_limit(tail, limit);
        let rest = parts_of(tail, limit);
        lemma_visible_all_add(seq![head], rest);
        lemma_visible_all_one(head);
        assert forall|k: int| 0 <= k < parts.len() implies (#[trigger] parts[k]).len() > 0 by {
            if k > 0 {
                assert(parts[k] == rest[k - 1]);
            }
        }
        if limit >= 2 {
            assert forall|k: int| 0 <= k < parts.len() implies utf16::units(#[trigger] parts[k])
                <= limit by {
                if k > 0 {
                    assert(parts[k] == rest[k - 1]);
                }
            }
        }
    } else {
        lemma_visible_all_one(s);
    }
}

// ---------------------------------------------------------------------------
// Blocks
// ---------------------------------------------------------------------------

/// The block that gathered lines make, unless it is blank.
pub open spec fn flushed(gathered: Seq<Seq<char>>) -> Seq<Seq<char>> {
    let block = text::trimmed(text::join_spec(gathered, "\n"@));
    if block.len() == 0 {
        Seq::empty()
    } else {
        seq![block]
    }
}

/// The fence that is open behind a line whose trimmed text opens with a marker.
pub open spec fn fence_after(open: Option<Seq<char>>, line: Seq<char>) -> Option<Seq<char>> {
    match open {
        None => rich_recap::fence_marker(line),
        Some(marker) => if marker.is_prefix_of(line) {
            None
        } else {
            open
        },
    }
}

/// The blocks of the lines from `i` on: blank lines outside code fences separate them.
pub open spec fn blocks_from(
    all: Seq<Seq<char>>,
    i: int,
    gathered: Seq<Seq<char>>,
    open: Option<Seq<char>>,
) -> Seq<Seq<char>>
    decreases all.len() - i,
{
    if i < 0 || i >= all.len() {
        flushed(gathered)
    } else {
        let line = text::trimmed(all[i]);
        if rich_recap::fence_marker(line) is Some {
            blocks_from(all, i + 1, gathered.push(all[i]), fence_after(open, line))
        } else if line.len() == 0 && open is None {
            flushed(gathered) + blocks_from(all, i + 1, Seq::empty(), None)
        } else {
            blocks_from(all, i + 1, gathered.push(all[i]), open)
        }
    }
}

/// Whether a block is one heading line.
pub open spec fn is_heading(block: Seq<char>) -> bool {
    let line = text::trimmed(block);
    !block.contains('\n') && ("# "@.is_prefix_of(line) || "## "@.is_prefix_of(line)
        || "### "@.is_prefix_of(line) || "#### "@.is_prefix_of(line) || "##### "@.is_prefix_of(
        line,
    ) || "###### "@.is_prefix_of(line))
}

/// The blocks from `i` on, a lone heading joined to the block it heads.
pub open spec fn headed_from(blocks: Seq<Seq<char>>, i: int) -> Seq<Seq<char>>
    decreases blocks.len() - i,
{
    if i < 0 || i >= blocks.len() {
        Seq::empty()
    } else if is_heading(blocks[i]) && i + 1 < blocks.len() {
        seq![blocks[i] + "\n\n"@ + blocks[i + 1]] + headed_from(blocks, i + 2)
    } else {
        seq![blocks[i]] + headed_from(blocks, i + 1)
    }
}

/// The blocks of a Rich Markdown text.
pub open spec fn markdown_blocks(s: Seq<char>) -> Seq<Seq<char>> {
    let normal = rich_recap::normalized(s);
    if normal.len() == 0 {
        Seq::empty()
    } else {
        headed_from(blocks_from(text::pieces(normal, '\n'), 0, Seq::empty(), None), 0)
    }
}

fn flush_rich_markdown_block(gathered: &Vec<String>, blocks: &mut Vec<String>)
    ensures
        text::texts(final(blocks)@) == text::texts(old(blocks)@) + flushed(text::texts(gathered@)),
{
    let block: String = trim(join(gathered, "\n").as_str());
    let ghost before = text::texts(blocks@);
    if !block.as_str().is_empty() {
        blocks.push(block);
        assert(text::texts(blocks@) =~= before + flushed(text::texts(gathered@)));
    } else {
        assert(text::texts(blocks@) =~= before + flushed(text::texts(gathered@)));
    }
}

fn is_standalone_markdown_heading(block: &str) -> (r: bool)
    ensures
        r == is_heading(block@),
{
    if contains_char(block, '\n') {
        return false;
    }
    let line: String = trim(block);
    let t: &str = line.as_str();
    starts_with(t, "# ") || starts_with(t, "## ") || starts_with(t, "### ") || starts_with(
        t,
        "#### ",
    ) || starts_with(t, "##### ") || starts_with(t, "###### ")
}

fn merge_standalone_headings(blocks: &Vec<String>) -> (merged: Vec<String>)
    ensures
        text::texts(merged@) == headed_from(text::texts(blocks@), 0),
{
    let ghost all = text::texts(blocks@);
    let mut merged: Vec<String> = Vec::new();
    let mut i: usize = 0;
    assert(text::texts(merged@) + headed_from(all, 0) =~= headed_from(all, 0));
    while i < blocks.len()
        invariant
            i <= blocks.len(),
            all == text::texts(blocks@),
            text::texts(merged@) + headed_from(all, i as int) == headed_from(all, 0),
        decreases blocks.len() - i,
    {
        let ghost before = text::texts(merged@);
        let ghost rest = headed_from(all, i as int);
        assert(all[i as int] == blocks@[i as int]@);
        if is_standalone_markdown_heading(blocks[i].as_str()) && i + 1 < blocks.len() {
            assert(all[i + 1] == blocks@[i + 1]@);
            let both: String = joined3(blocks[i].as_str(), "\n\n", blocks[i + 1].as_str());
            merged.push(both);
            i = i + 2;
            assert(text::texts(merged@) =~= before.push(both@));
        } else {
            let one: String = blocks[i].clone();
            merged.push(one);
            i = i + 1;
            assert(text::texts(merged@) =~= before.push(one@));
        }
        assert(text::texts(merged@) + headed_from(all, i as int) =~= before + rest);
    }
    assert(text::texts(merged@) =~= headed_from(all, 0));
    merged
}

fn split_rich_markdown_blocks(markdown: &str) -> (out: Vec<String>)
    ensures
        text::texts(out@) == markdown_blocks(markdown@),
{
    let normal: String = normalize_rich_markdown(markdown);
    if normal.as_str().is_empty() {
        let none: Vec<String> = Vec::new();
        assert(text::texts(none@) =~= Seq::<Seq<char>>::empty());
        return none;
    }
    let all: Vec<String> = split(normal.as_str(), '\n');
    let ghost every = text::pieces(normal@, '\n');
    let ghost whole = blocks_from(every, 0, Seq::empty(), None);
    let mut blocks: Vec<String> = Vec::new();
    let mut gathered: Vec<String> = Vec::new();
    let mut open: Option<&'static str> = None;
    let mut i: usize = 0;
    assert(text::texts(gathered@) =~= Seq::<Seq<char>>::empty());
    assert(text::texts(blocks@) + whole =~= whole);
    while i < all.len()
        invariant
            i <= all.len(),
            every == text::texts(all@),
            text::texts(blocks@) + blocks_from(
                every,
                i as int,
                text::texts(gathered@),
                rich_recap::viewed_fence(open),
            ) == whole,
        decreases all.len() - i,
    {
        let ghost done = text::texts(blocks@);
        let ghost held = text::texts(gathered@);
        let ghost rest = blocks_from(every, i as int, held, rich_recap::viewed_fence(open));
        assert(every[i as int] == all@[i as int]@);
        let line: String = all[i].clone();
        let trimmed: String = trim(line.as_str());
        match rich_markdown_fence_marker(trimmed.as_str()) {
            Some(marker) => {
                open = match open {
                    None => Some(marker),
                    Some(current) => if starts_with(trimmed.as_str(), current) {
                        None
                    } else {
                        Some(current)
                    },
                };
                gathered.push(line);
                assert(text::texts(gathered@) =~= held.push(line@));
            },
            None => {
                if trimmed.as_str().is_empty() && open.is_none() {
                    flush_rich_markdown_block(&gathered, &mut blocks);
                    gathered = Vec::new();
                    assert(text::texts(gathered@) =~= Seq::<Seq<char>>::empty());
                } else {
                    gathered.push(line);
                    assert(text::texts(gathered@) =~= held.push(line@));
                }
            },
        }
        i = i + 1;
        assert(text::texts(blocks@) + blocks_from(
            every,
            i as int,
            text::texts(gathered@),
            rich_recap::viewed_fence(open),
        ) =~= done + rest);
    }
    flush_rich_markdown_block(&gathered, &mut blocks);
    assert(text::texts(blocks@) =~= whole);
    merge_standalone_headings(&blocks)
}

// ---------------------------------------------------------------------------
// Packing
// ---------------------------------------------------------------------------

/// Chunks that are closed, the one being filled, and its limit.
#[verifier::ext_equal]
pub struct Packing {
    pub closed: Seq<Seq<char>>,
    pub current: Seq<char>,
    pub limit: int,
}

/// What stands between a chunk and the block added to it.
pub open spec fn gap(current: Seq<char>) -> Seq<char> {
    if current.len() == 0 {
        Seq::empty()
    } else {
        "\n\n"@
    }
}

/// `packing` with `block` added: whole where it fits, behind a closed chunk where
/// only that helps, and cut to size where it is too large for any chunk.
pub open spec fn placed(packing: Packing, block: Seq<char>, later: int) -> Packing
    decreases block.len(), packing.current.len(),
    when packing.limit >= 0 && later >= 0
{
    if block.len() == 0 {
        packing
    } else if utf16::units(packing.current) + utf16::units(gap(packing.current))
        + utf16::units(block)
        <= packing.limit {
        Packing { current: packing.current + gap(packing.current) + block, ..packing }
    } else if packing.current.len() > 0 {
        placed(
            Packing {
                closed: packing.closed.push(packing.current),
                current: Seq::empty(),
                limit: later,
            },
            block,
            later,
        )
    } else {
        proof {
            lemma_cut_with(
                block,
                packing.limit,
                protected_spans(
                    lookahead(block, rune_budget(block, packing.limit)),
                    Protection::RichMarkdown,
                ),
            );
        }
        let (head, tail) = cut_fragment(block, packing.limit, Protection::RichMarkdown);
        placed(
            Packing { closed: packing.closed.push(head), current: Seq::empty(), limit: later },
            tail,
            later,
        )
    }
}

/// `packing` with the blocks from `i` on added.
pub open spec fn placed_all(packing: Packing, blocks: Seq<Seq<char>>, later: int, i: int) -> Packing
    decreases blocks.len() - i,
{
    if i < 0 || i >= blocks.len() {
        packing
    } else {
        placed_all(placed(packing, blocks[i], later), blocks, later, i + 1)
    }
}

/// The chunks of `blocks`: the first within `first` code units, the others within `later`.
pub open spec fn packed(blocks: Seq<Seq<char>>, first: int, later: int) -> Seq<Seq<char>> {
    if first == 0 || later == 0 {
        Seq::empty()
    } else {
        let end = placed_all(
            Packing { closed: Seq::empty(), current: Seq::empty(), limit: first },
            blocks,
            later,
            0,
        );
        if end.current.len() == 0 {
            end.closed
        } else {
            end.closed.push(end.current)
        }
    }
}

fn pack_rich_markdown_blocks(
    blocks: &Vec<String>,
    first_limit: usize,
    later_limit: usize,
) -> (chunks: Vec<String>)
    ensures
        text::texts(chunks@) == packed(
            text::texts(blocks@),
            first_limit as int,
            later_limit as int,
        ),
{
    let ghost all = text::texts(blocks@);
    let ghost start = Packing {
        closed: Seq::empty(),
        current: Seq::empty(),
        limit: first_limit as int,
    };
    let ghost end = placed_all(start, all, later_limit as int, 0);
    let mut chunks: Vec<String> = Vec::new();
    assert(text::texts(chunks@) =~= Seq::<Seq<char>>::empty());
    if first_limit == 0 || later_limit == 0 {
        return chunks;
    }
    let mut current: String = String::new();
    let mut limit: usize = first_limit;
    let mut i: usize = 0;
    assert(start == Packing {
        closed: text::texts(chunks@),
        current: current@,
        limit: limit as int,
    });
    while i < blocks.len()
        invariant
            i <= blocks.len(),
            all == text::texts(blocks@),
            first_limit > 0,
            later_limit > 0,
            placed_all(
                Packing { closed: text::texts(chunks@), current: current@, limit: limit as int },
                all,
                later_limit as int,
                i as int,
            ) == end,
        decreases blocks.len() - i,
    {
        assert(all[i as int] == blocks@[i as int]@);
        let mut remaining: String = blocks[i].clone();
        let ghost target = placed(
            Packing { closed: text::texts(chunks@), current: current@, limit: limit as int },
            all[i as int],
            later_limit as int,
        );
        while !remaining.as_str().is_empty()
            invariant
                later_limit > 0,
                placed(
                    Packing {
                        closed: text::texts(chunks@),
                        current: current@,
                        limit: limit as int,
                    },
                    remaining@,
                    later_limit as int,
                ) == target,
            decreases remaining@.len(), current@.len(),
        {
            let ghost closed = text::texts(chunks@);
            let separator: &str = if current.as_str().is_empty() {
                ""
            } else {
                "\n\n"
            };
            proof {
                reveal_strlit("");
                assert(separator@ =~= gap(current@));
                utf16::lemma_units_bounds(current@);
            }
            let size: u128 = count_units(current.as_str());
            let extra: u128 = count_units(separator);
            let more: u128 = count_units(remaining.as_str());
            let fits: bool = size <= limit as u128 && extra <= limit as u128 - size && more
                <= limit as u128 - size - extra;
            if fits {
                current.append(separator);
                current.append(remaining.as_str());
                remaining = String::new();
            } else if !current.as_str().is_empty() {
                chunks.push(current);
                assert(text::texts(chunks@) =~= closed.push(current@));
                current = String::new();
                assert(current@ =~= Seq::<char>::empty());
                limit = later_limit;
            } else {
                proof {
                    assert(current@ =~= Seq::<char>::empty());
                    lemma_cut_with(
                        remaining@,
                        limit as int,
                        protected_spans(
                            lookahead(remaining@, rune_budget(remaining@, limit as int)),
                            Protection::RichMarkdown,
                        ),
                    );
                }
                let (head, tail) = split_fragment_at_preferred_cut(
                    remaining.as_str(),
                    limit,
                    Protection::RichMarkdown,
                );
                chunks.push(head);
                assert(text::texts(chunks@) =~= closed.push(head@));
                limit = later_limit;
                remaining = tail;
            }
        }
        i = i + 1;
    }
    let ghost closed = text::texts(chunks@);
    if !current.as_str().is_empty() {
        chunks.push(current);
        assert(text::texts(chunks@) =~= closed.push(current@));
    }
    chunks
}

// ---------------------------------------------------------------------------
// Messages
// ---------------------------------------------------------------------------

/// The normalized summaries from `i` on that are not blank.
pub open spec fn filled_from(summaries: Seq<Seq<char>>, i: int) -> Seq<Seq<char>>
    decreases summaries.len() - i,
{
    if i < 0 || i >= summaries.len() {
        Seq::empty()
    } else if rich_recap::normalized(summaries[i]).len() == 0 {
        filled_from(summaries, i + 1)
    } else {
        seq![rich_recap::normalized(summaries[i])] + filled_from(summaries, i + 1)
    }
}

/// The detailed summaries as one text.
pub open spec fn joined_details(summaries: Seq<Seq<char>>) -> Seq<char> {
    text::join_spec(filled_from(summaries, 0), "\n\n"@)
}

/// How many code units of details fit one message with its container.
pub open spec fn body_limit() -> int {
    RICH_MESSAGE_UTF16_UNIT_LIMIT - utf16::units(RICH_RECAP_DETAILS_OPEN@
        + RICH_RECAP_DETAILS_CLOSE@)
}

/// The condensed summary as it stands before the details.
pub open spec fn summary_prefix(condensed: Seq<char>) -> Seq<char> {
    let normal = rich_recap::normalized(condensed);
    if normal.len() == 0 {
        Seq::empty()
    } else {
        normal + "\n\n"@
    }
}

/// Whether the condensed summary leaves no room for details in its message.
pub open spec fn prefix_overflows(condensed: Seq<char>) -> bool {
    utf16::units(summary_prefix(condensed)) >= body_limit()
}

/// The messages that hold condensed summary alone.
pub open spec fn condensed_messages(condensed: Seq<char>, details: Seq<Seq<char>>) -> Seq<
    Seq<char>,
> {
    if joined_details(details).len() == 0 || prefix_overflows(condensed) {
        packed(
            markdown_blocks(rich_recap::normalized(condensed)),
            RICH_MESSAGE_UTF16_UNIT_LIMIT as int,
            RICH_MESSAGE_UTF16_UNIT_LIMIT as int,
        )
    } else {
        Seq::empty()
    }
}

/// What the details of the first message are packed to.
pub open spec fn first_body_limit(condensed: Seq<char>) -> int {
    if prefix_overflows(condensed) {
        body_limit()
    } else {
        body_limit() - utf16::units(summary_prefix(condensed))
    }
}

/// What stands before the first container.
pub open spec fn first_prefix(condensed: Seq<char>) -> Seq<char> {
    if prefix_overflows(condensed) {
        Seq::empty()
    } else {
        summary_prefix(condensed)
    }
}

/// The details, cut to what the containers hold.
pub open spec fn detail_chunks(condensed: Seq<char>, details: Seq<Seq<char>>) -> Seq<Seq<char>> {
    if joined_details(details).len() == 0 {
        Seq::empty()
    } else {
        packed(
            markdown_blocks(joined_details(details)),
            first_body_limit(condensed),
            body_limit(),
        )
    }
}

/// The chunks in their containers, the first behind `prefix`.
pub open spec fn contained(chunks: Seq<Seq<char>>, prefix: Seq<char>) -> Seq<Seq<char>> {
    Seq::new(
        chunks.len(),
        |i: int|
            (if i == 0 {
                prefix
            } else {
                Seq::empty()
            }) + RICH_RECAP_DETAILS_OPEN@ + chunks[i] + RICH_RECAP_DETAILS_CLOSE@,
    )
}

/// The messages of a recap: the condensed summary first, then the details in
/// collapsible containers.
pub open spec fn composed(condensed: Seq<char>, details: Seq<Seq<char>>) -> Seq<Seq<char>> {
    condensed_messages(condensed, details) + contained(
        detail_chunks(condensed, details),
        first_prefix(condensed),
    )
}

pub proof fn lemma_wrapper_is_small()
    ensures
        2 <= utf16::units(RICH_RECAP_DETAILS_OPEN@ + RICH_RECAP_DETAILS_CLOSE@) <= 200,
        utf16::units(RICH_RECAP_DETAILS_OPEN@ + RICH_RECAP_DETAILS_CLOSE@) == utf16::units(
            RICH_RECAP_DETAILS_OPEN@,
        ) + utf16::units(RICH_RECAP_DETAILS_CLOSE@),
{
    reveal_strlit("<details><summary>詳細總結</summary>\n\n");
    reveal_strlit("\n\n</details>");
    utf16::lemma_units_bounds(RICH_RECAP_DETAILS_OPEN@ + RICH_RECAP_DETAILS_CLOSE@);
    utf16::lemma_units_add(RICH_RECAP_DETAILS_OPEN@, RICH_RECAP_DETAILS_CLOSE@);
}

fn join_rich_markdown_summaries(summaries: &Vec<String>) -> (out: String)
    ensures
        out@ == joined_details(text::texts(summaries@)),
{
    let ghost all = text::texts(summaries@);
    let mut filled: Vec<String> = Vec::new();
    let mut i: usize = 0;
    assert(text::texts(filled@) + filled_from(all, 0) =~= filled_from(all, 0));
    while i < summaries.len()
        invariant
            i <= summaries.len(),
            all == text::texts(summaries@),
            text::texts(filled@) + filled_from(all, i as int) == filled_from(all, 0),
        decreases summaries.len() - i,
    {
        let ghost before = text::texts(filled@);
        let ghost rest = filled_from(all, i as int);
        assert(all[i as int] == summaries@[i as int]@);
        let normal: String = normalize_rich_markdown(summaries[i].as_str());
        if !normal.as_str().is_empty() {
            filled.push(normal);
            assert(text::texts(filled@) =~= before.push(normal@));
        }
        i = i + 1;
        assert(text::texts(filled@) + filled_from(all, i as int) =~= before + rest);
    }
    assert(text::texts(filled@) =~= filled_from(all, 0));
    join(&filled, "\n\n")
}

/// Place the condensed summary before collapsible details, split into messages
/// that are each valid on their own.
pub fn compose_rich_recap_messages(
    condensed_summary: &str,
    detailed_summaries: &Vec<String>,
) -> (messages: Vec<String>)
    ensures
        text::texts(messages@) == composed(
            condensed_summary@,
            text::texts(detailed_summaries@),
        ),
{
    let ghost details = text::texts(detailed_summaries@);
    let condensed: String = normalize_rich_markdown(condensed_summary);
    let detailed: String = join_rich_markdown_summaries(detailed_summaries);
    proof {
        lemma_wrapper_is_small();
        reveal_strlit("");
    }
    if detailed.as_str().is_empty() {
        let messages: Vec<String> = pack_rich_markdown_blocks(
            &split_rich_markdown_blocks(condensed.as_str()),
            RICH_MESSAGE_UTF16_UNIT_LIMIT,
            RICH_MESSAGE_UTF16_UNIT_LIMIT,
        );
        assert(text::texts(messages@) =~= composed(condensed_summary@, details));
        return messages;
    }
    let wrapper: String = joined2(RICH_RECAP_DETAILS_OPEN, RICH_RECAP_DETAILS_CLOSE);
    let wrapper_units: u128 = count_units(wrapper.as_str());
    let detail_limit: usize = RICH_MESSAGE_UTF16_UNIT_LIMIT - wrapper_units as usize;
    let mut prefix: String = if condensed.as_str().is_empty() {
        String::new()
    } else {
        joined2(condensed.as_str(), "\n\n")
    };
    assert(prefix@ =~= summary_prefix(condensed_summary@));
    let prefix_units: u128 = count_units(prefix.as_str());
    let mut first_limit: usize = detail_limit;
    let mut messages: Vec<String> = Vec::new();
    if prefix_units >= detail_limit as u128 {
        messages = pack_rich_markdown_blocks(
            &split_rich_markdown_blocks(condensed.as_str()),
            RICH_MESSAGE_UTF16_UNIT_LIMIT,
            RICH_MESSAGE_UTF16_UNIT_LIMIT,
        );
        prefix = String::new();
    } else {
        first_limit = detail_limit - prefix_units as usize;
        assert(text::texts(messages@) =~= Seq::<Seq<char>>::empty());
    }
    let ghost start = text::texts(messages@);
    assert(start == condensed_messages(condensed_summary@, details));
    assert(prefix@ =~= first_prefix(condensed_summary@));
    let chunks: Vec<String> = pack_rich_markdown_blocks(
        &split_rich_markdown_blocks(detailed.as_str()),
        first_limit,
        detail_limit,
    );
    let ghost held = text::texts(chunks@);
    assert(held == detail_chunks(condensed_summary@, details));
    let ghost wrapped = contained(held, prefix@);
    let mut i: usize = 0;
    assert(start + wrapped.take(0) =~= start);
    while i < chunks.len()
        invariant
            i <= chunks.len(),
            held == text::texts(chunks@),
            wrapped == contained(held, prefix@),
            text::texts(messages@) == start + wrapped.take(i as int),
        decreases chunks.len() - i,
    {
        let ghost before = text::texts(messages@);
        let mut message: String = if i == 0 {
            prefix.clone()
        } else {
            String::new()
        };
        message.append(RICH_RECAP_DETAILS_OPEN);
        message.append(chunks[i].as_str());
        message.append(RICH_RECAP_DETAILS_CLOSE);
        assert(held[i as int] == chunks@[i as int]@);
        assert(message@ =~= wrapped[i as int]);
        messages.push(message);
        assert(text::texts(messages@) =~= before.push(message@));
        i = i + 1;
        assert(text::texts(messages@) =~= start + wrapped.take(i as int));
    }
    assert(wrapped.take(i as int) =~= wrapped);
    messages
}

/// The condensed summary to show when none was generated: the beginning of the
/// details, or a default.
pub open spec fn fallback_summary(details: Seq<Seq<char>>, default_summary: Seq<char>) -> Seq<
    char,
> {
    let head = text::trimmed(
        cut_fragment(
            text::trimmed(text::join_spec(details, " "@)),
            CONDENSED_SUMMARY_FALLBACK_UNIT_LIMIT as int,
            Protection::RichMarkdown,
        ).0,
    );
    if head.len() == 0 {
        text::trimmed(default_summary)
    } else {
        head
    }
}

/// Derive a condensed fallback of at most 120 code units from detailed summaries.
pub fn fallback_condensed_summary(
    summarizations: &Vec<String>,
    default_summary: &str,
) -> (out: String)
    ensures
        out@ == fallback_summary(text::texts(summarizations@), default_summary@),
{
    let joined: String = trim(join(summarizations, " ").as_str());
    let (head, _tail) = split_fragment_at_preferred_cut(
        joined.as_str(),
        CONDENSED_SUMMARY_FALLBACK_UNIT_LIMIT,
        Protection::RichMarkdown,
    );
    let shown: String = trim(head.as_str());
    if shown.as_str().is_empty() {
        trim(default_summary)
    } else {
        shown
    }
}

} // verus!
