//! The regular expressions of the recap formatter, and the `regex` calls on them.

use regex::Regex;
use vstd::prelude::*;

use crate::text::chars_of;
use crate::utf16;

verus! {

/// A controlled reference to one or more recorded messages.
pub const REFERENCE_PATTERN: &'static str = r"\{\{tg-ref:([^{}\r\n]*)\}\}";

pub const HTML_TAG_PATTERN: &'static str = r"(?i)</?[a-z][^>\r\n]*>";

pub const INLINE_LINK_PATTERN: &'static str = r"!?\[([^\]\r\n]+)\]\([^)\r\n]+\)";

pub const BARE_URL_PATTERN: &'static str = r"https?://[^ \t\n\f\r<>()]+";

pub const MENTION_PATTERN: &'static str = r"(^|[^0-9A-Za-z_])@+([0-9A-Za-z_])";

pub const LINK_SPAN_PATTERN: &'static str = r"!?\[[^\]\r\n]*\]\([^) \t\n\f\r]+\)";

pub const BOLD_PATTERN: &'static str = r"\*\*((?:\\.|[^*\r\n])*)\*\*";

pub const UNDERLINE_PATTERN: &'static str = r"__((?:\\.|[^_\r\n])*)__";

pub const STRIKE_PATTERN: &'static str = r"~~((?:\\.|[^~\r\n])*)~~";

pub const INLINE_CODE_PATTERN: &'static str = r"`([^`\r\n]*)`";

pub const ITALIC_PATTERN: &'static str = r"\*((?:\\.|[^*\r\n])*)\*";

pub const UNDERSCORE_ITALIC_PATTERN: &'static str = r"_((?:\\.|[^_\r\n])*)_";

pub const CONDENSED_LABEL_PATTERN: &'static str = r"(?i)^[ \t\n\f\r]*(?:\*\*)?(?:濃縮總結|浓缩总结)(?:\*\*)?[ \t\n\f\r]*[：:]?[ \t\n\f\r]*(?:🤖(?:️)?[ \t\n\f\r]*)?";

pub const DETAILS_OPEN_PATTERN: &'static str = r"(?i)<details>[ \t\n\f\r]*<summary>([^<]*)</summary>[ \t\n\f\r]*";

pub const URL_LINK_PATTERN: &'static str = r"\[([^\]\r\n]+)\]\((https?://[^) \t\n\f\r]+)\)";

pub const USER_LINK_PATTERN: &'static str = r"\[((?:\\.|[^\]\r\n])*)\]\(tg://user\?id=[0-9]+\)";

pub const HEADING_PATTERN: &'static str = r"(?m)^#{1,6}[ \t]+";

pub const QUOTE_PATTERN: &'static str = r"(?m)^[ \t]*>[ \t]?";

/// A citation label together with its parenthesised address.
pub const CITATION_PATTERN: &'static str = r"[^ \t\n\f\r]+[ \t]+\(https?://[^) \t\n\f\r]+\)";

/// The expressions of this module, each of which compiles.
pub open spec fn is_recap_pattern(pattern: Seq<char>) -> bool {
    ||| pattern == HTML_TAG_PATTERN@
    ||| pattern == INLINE_LINK_PATTERN@
    ||| pattern == BARE_URL_PATTERN@
    ||| pattern == MENTION_PATTERN@
    ||| pattern == LINK_SPAN_PATTERN@
    ||| pattern == BOLD_PATTERN@
    ||| pattern == UNDERLINE_PATTERN@
    ||| pattern == STRIKE_PATTERN@
    ||| pattern == INLINE_CODE_PATTERN@
    ||| pattern == ITALIC_PATTERN@
    ||| pattern == UNDERSCORE_ITALIC_PATTERN@
    ||| pattern == CONDENSED_LABEL_PATTERN@
    ||| pattern == DETAILS_OPEN_PATTERN@
    ||| pattern == URL_LINK_PATTERN@
    ||| pattern == USER_LINK_PATTERN@
    ||| pattern == HEADING_PATTERN@
    ||| pattern == QUOTE_PATTERN@
    ||| pattern == CITATION_PATTERN@
}

/// What `Regex::replace_all` makes of a text.
pub uninterp spec fn regex_replaced_all(
    pattern: Seq<char>,
    text: Seq<char>,
    replacement: Seq<char>,
) -> Seq<char>;

/// What `Regex::replace` makes of a text.
pub uninterp spec fn regex_replaced_first(
    pattern: Seq<char>,
    text: Seq<char>,
    replacement: Seq<char>,
) -> Seq<char>;

/// The byte ranges that `Regex::find_iter` yields on a text.
pub uninterp spec fn regex_spans(pattern: Seq<char>, text: Seq<char>) -> Seq<(usize, usize)>;

/// The byte ranges of the whole match and of its first group that
/// `Regex::captures_iter` yields on a text.
pub uninterp spec fn regex_captures(
    pattern: Seq<char>,
    text: Seq<char>,
) -> Seq<((usize, usize), (usize, usize))>;

/// Matches that follow one another, each with its group inside it.
pub open spec fn ordered_captures(found: Seq<((usize, usize), (usize, usize))>) -> bool {
    &&& forall|i: int|
        0 <= i < found.len() ==> (#[trigger] found[i]).0.0 <= found[i].1.0 <= found[i].1.1
            <= found[i].0.1
    &&& forall|i: int, j: int|
        0 <= i < j < found.len() ==> (#[trigger] found[i]).0.1 <= (#[trigger] found[j]).0.0
}

/// `Regex::replace_all`: the result depends on the expression, the text and the
/// replacement template alone.
#[verifier::external_body]
pub(crate) fn replace_all(pattern: &str, text: &str, replacement: &str) -> (out: String)
    requires
        is_recap_pattern(pattern@),
    ensures
        out@ == regex_replaced_all(pattern@, text@, replacement@),
{
    Regex::new(pattern).expect("the expression compiles").replace_all(text, replacement).into_owned()
}

/// `Regex::replace`, which rewrites the first match only: the result depends on
/// the expression, the text and the replacement template alone.
#[verifier::external_body]
pub(crate) fn replace_first(pattern: &str, text: &str, replacement: &str) -> (out: String)
    requires
        is_recap_pattern(pattern@),
    ensures
        out@ == regex_replaced_first(pattern@, text@, replacement@),
{
    Regex::new(pattern).expect("the expression compiles").replace(text, replacement).into_owned()
}

/// `Regex::find_iter`: the byte ranges of the successive matches depend on the
/// expression and the text alone.
#[verifier::external_body]
pub(crate) fn find_spans(pattern: &str, text: &str) -> (out: Vec<(usize, usize)>)
    requires
        is_recap_pattern(pattern@),
    ensures
        out@ == regex_spans(pattern@, text@),
{
    let compiled = Regex::new(pattern).expect("the expression compiles");
    compiled.find_iter(text).map(|found| (found.start(), found.end())).collect()
}

/// `Regex::captures_iter` with [`REFERENCE_PATTERN`]: the byte ranges of the
/// successive matches and of their only group depend on the text alone, a match
/// ends before the next one starts, and the group, which takes part in every
/// match, lies inside its match.
#[verifier::external_body]
pub(crate) fn find_references(text: &str) -> (out: Vec<((usize, usize), (usize, usize))>)
    ensures
        out@ == regex_captures(REFERENCE_PATTERN@, text@),
        ordered_captures(out@),
{
    let compiled = Regex::new(REFERENCE_PATTERN).expect("the expression compiles");
    let pairs = compiled.captures_iter(text).map(|found| (found.get(0).unwrap(), found.get(1).unwrap()));
    pairs.map(|(all, group)| ((all.start(), all.end()), (group.start(), group.end()))).collect()
}

// ---------------------------------------------------------------------------
// From byte offsets to positions
// ---------------------------------------------------------------------------

/// How many bytes UTF-8 takes for a scalar value.
pub open spec fn byte_width(c: char) -> int {
    if (c as u32) < 0x80 {
        1
    } else if (c as u32) < 0x800 {
        2
    } else if (c as u32) < 0x1_0000 {
        3
    } else {
        4
    }
}

/// How many scalar values of `s[i..]` start before `byte`, counted from `i`.
pub open spec fn starts_before(s: Seq<char>, i: int, byte: int) -> int
    decreases s.len() - i,
{
    if i < 0 || i >= s.len() || byte <= 0 {
        0
    } else {
        1 + starts_before(s, i + 1, byte - byte_width(s[i]))
    }
}

/// The position of the byte offset `byte` in `s`.
pub open spec fn position_of(s: Seq<char>, byte: int) -> int {
    starts_before(s, 0, byte)
}

pub fn position(chars: &Vec<char>, byte: usize) -> (n: usize)
    ensures
        n == position_of(chars@, byte as int),
        n <= chars@.len(),
{
    let mut left: usize = byte;
    let mut i: usize = 0;
    while i < chars.len() && left > 0
        invariant
            i <= chars.len(),
            i + starts_before(chars@, i as int, left as int) == position_of(chars@, byte as int),
        decreases chars.len() - i,
    {
        let c: char = chars[i];
        let n: u32 = c as u32;
        proof {
            utf16::lemma_scalar(c);
            assert(starts_before(chars@, i + 1, left - byte_width(c)) == 0 || left > byte_width(c));
            assert(starts_before(chars@, i + 1, 0) == 0);
        }
        let width: usize = if n < 0x80 {
            1
        } else if n < 0x800 {
            2
        } else if n < 0x1_0000 {
            3
        } else {
            4
        };
        if left <= width {
            left = 0;
        } else {
            left = left - width;
        }
        i = i + 1;
    }
    i
}

/// A later byte offset has a later position.
pub proof fn lemma_position_monotone(s: Seq<char>, i: int, a: int, b: int)
    requires
        a <= b,
        0 <= i,
    ensures
        starts_before(s, i, a) <= starts_before(s, i, b),
        0 <= starts_before(s, i, a),
        i <= s.len() ==> starts_before(s, i, b) <= s.len() - i,
    decreases s.len() - i,
{
    if i < s.len() {
        lemma_position_monotone(s, i + 1, a - byte_width(s[i]), b - byte_width(s[i]));
    }
}

/// The positions of byte ranges.
pub open spec fn positions_of(s: Seq<char>, spans: Seq<(usize, usize)>) -> Seq<(int, int)> {
    Seq::new(
        spans.len(),
        |i: int| (position_of(s, spans[i].0 as int), position_of(s, spans[i].1 as int)),
    )
}

/// The positions of spans held as machine integers.
pub open spec fn as_positions(spans: Seq<(usize, usize)>) -> Seq<(int, int)> {
    Seq::new(spans.len(), |i: int| (spans[i].0 as int, spans[i].1 as int))
}

/// Where the matches of `pattern` stand in `text`.
pub fn match_positions(pattern: &str, text: &str) -> (out: Vec<(usize, usize)>)
    requires
        is_recap_pattern(pattern@),
    ensures
        as_positions(out@) == positions_of(text@, regex_spans(pattern@, text@)),
{
    let chars: Vec<char> = chars_of(text);
    let found: Vec<(usize, usize)> = find_spans(pattern, text);
    let mut out: Vec<(usize, usize)> = Vec::new();
    let mut i: usize = 0;
    while i < found.len()
        invariant
            i <= found.len(),
            out.len() == i,
            chars@ == text@,
            found@ == regex_spans(pattern@, text@),
            forall|k: int|
                0 <= k < i ==> (#[trigger] out@[k]).0 == position_of(text@, found@[k].0 as int)
                    && out@[k].1 == position_of(text@, found@[k].1 as int),
        decreases found.len() - i,
    {
        let start: usize = position(&chars, found[i].0);
        let end: usize = position(&chars, found[i].1);
        out.push((start, end));
        i = i + 1;
    }
    assert(as_positions(out@) =~= positions_of(text@, regex_spans(pattern@, text@)));
    out
}

} // verus!
