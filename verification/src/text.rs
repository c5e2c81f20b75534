//! Text primitives over sequences of Unicode scalar values.
//!
//! A text is modelled by the `Seq<char>` it views as. Every operation here is
//! stated over that model, so positions count scalar values, never bytes.

use vstd::prelude::*;

verus! {

/// `String::push` appends one scalar value.
pub assume_specification[ String::push ](buffer: &mut String, scalar: char)
    ensures
        final(buffer)@ == old(buffer)@.push(scalar),
;

/// The texts held by a vector of strings.
pub open spec fn texts(parts: Seq<String>) -> Seq<Seq<char>> {
    Seq::new(parts.len(), |i: int| parts[i]@)
}

/// The model of an optional text.
pub open spec fn viewed(found: Option<String>) -> Option<Seq<char>> {
    match found {
        Some(text) => Some(text@),
        None => None,
    }
}

/// The scalar values of `text`.
pub fn chars_of(text: &str) -> (out: Vec<char>)
    ensures
        out@ == text@,
{
    let mut out: Vec<char> = Vec::new();
    for c in iter: text.chars()
        invariant
            iter.seq() == text@,
            out@ == text@.take(iter.index()),
    {
        out.push(c);
    }
    out
}

/// The text made of `chars[from..to]`.
pub fn string_of(chars: &Vec<char>, from: usize, to: usize) -> (out: String)
    requires
        from <= to <= chars@.len(),
    ensures
        out@ == chars@.subrange(from as int, to as int),
{
    let mut out: String = String::new();
    let mut i: usize = from;
    while i < to
        invariant
            from <= i <= to <= chars@.len(),
            out@ == chars@.subrange(from as int, i as int),
        decreases to - i,
    {
        out.push(chars[i]);
        i = i + 1;
        assert(out@ =~= chars@.subrange(from as int, i as int));
    }
    out
}

/// Whether two texts are the same.
pub fn same(a: &str, b: &str) -> (r: bool)
    ensures
        r == (a@ == b@),
{
    a.to_owned() == b.to_owned()
}

/// The concatenation of two texts.
pub fn joined2(a: &str, b: &str) -> (out: String)
    ensures
        out@ == a@ + b@,
{
    let mut out: String = a.to_owned();
    out.append(b);
    out
}

/// The concatenation of three texts.
pub fn joined3(a: &str, b: &str, c: &str) -> (out: String)
    ensures
        out@ == a@ + b@ + c@,
{
    let mut out: String = a.to_owned();
    out.append(b);
    out.append(c);
    out
}

// ---------------------------------------------------------------------------
// Character classes and trimming
// ---------------------------------------------------------------------------

/// The classes of characters that trimming removes.
#[derive(Debug, Clone, Copy)]
pub enum CharClass {
    /// Unicode `White_Space`.
    White,
    /// A space or a tab.
    Blank,
    /// The five ASCII whitespace characters of HTML.
    HtmlSpace,
    /// One character.
    Exactly(char),
}

/// Unicode's `White_Space` property.
pub open spec fn is_white(c: char) -> bool {
    ||| '\u{9}' <= c <= '\u{d}'
    ||| c == ' '
    ||| c == '\u{85}'
    ||| c == '\u{a0}'
    ||| c == '\u{1680}'
    ||| '\u{2000}' <= c <= '\u{200a}'
    ||| c == '\u{2028}'
    ||| c == '\u{2029}'
    ||| c == '\u{202f}'
    ||| c == '\u{205f}'
    ||| c == '\u{3000}'
}

pub open spec fn in_class(class: CharClass, c: char) -> bool {
    match class {
        CharClass::White => is_white(c),
        CharClass::Blank => c == ' ' || c == '\t',
        CharClass::HtmlSpace => c == ' ' || c == '\t' || c == '\n' || c == '\u{c}' || c == '\r',
        CharClass::Exactly(only) => c == only,
    }
}

impl CharClass {
    /// Whether `c` belongs to the class.
    pub fn has(self, c: char) -> (r: bool)
        ensures
            r == in_class(self, c),
    {
        match self {
            CharClass::White => ('\u{9}' <= c && c <= '\u{d}') || c == ' ' || c == '\u{85}'
                || c == '\u{a0}' || c == '\u{1680}' || ('\u{2000}' <= c && c <= '\u{200a}')
                || c == '\u{2028}' || c == '\u{2029}' || c == '\u{202f}' || c == '\u{205f}'
                || c == '\u{3000}',
            CharClass::Blank => c == ' ' || c == '\t',
            CharClass::HtmlSpace => c == ' ' || c == '\t' || c == '\n' || c == '\u{c}'
                || c == '\r',
            CharClass::Exactly(only) => c == only,
        }
    }
}

/// `s` without its leading characters of `class`.
pub open spec fn trim_start_class(s: Seq<char>, class: CharClass) -> Seq<char>
    decreases s.len(),
{
    if s.len() > 0 && in_class(class, s[0]) {
        trim_start_class(s.drop_first(), class)
    } else {
        s
    }
}

/// `s` without its trailing characters of `class`.
pub open spec fn trim_end_class(s: Seq<char>, class: CharClass) -> Seq<char>
    decreases s.len(),
{
    if s.len() > 0 && in_class(class, s.last()) {
        trim_end_class(s.drop_last(), class)
    } else {
        s
    }
}

/// `s` without leading and trailing whitespace.
pub open spec fn trimmed(s: Seq<char>) -> Seq<char> {
    trim_end_class(trim_start_class(s, CharClass::White), CharClass::White)
}

/// Whether `s` is empty or whitespace only.
pub open spec fn is_blank(s: Seq<char>) -> bool {
    trimmed(s).len() == 0
}

pub proof fn lemma_trim_start(s: Seq<char>, class: CharClass, i: int)
    requires
        0 <= i <= s.len(),
        forall|k: int| 0 <= k < i ==> in_class(class, #[trigger] s[k]),
        i < s.len() ==> !in_class(class, s[i]),
    ensures
        trim_start_class(s, class) == s.subrange(i, s.len() as int),
    decreases i,
{
    if i == 0 {
        assert(s.subrange(0, s.len() as int) =~= s);
    } else {
        let t = s.drop_first();
        assert forall|k: int| 0 <= k < i - 1 implies in_class(class, #[trigger] t[k]) by {
            assert(t[k] == s[k + 1]);
        }
        lemma_trim_start(t, class, i - 1);
        assert(t.subrange(i - 1, t.len() as int) =~= s.subrange(i, s.len() as int));
    }
}

pub proof fn lemma_trim_end(s: Seq<char>, class: CharClass, j: int)
    requires
        0 <= j <= s.len(),
        forall|k: int| j <= k < s.len() ==> in_class(class, #[trigger] s[k]),
        j > 0 ==> !in_class(class, s[j - 1]),
    ensures
        trim_end_class(s, class) == s.subrange(0, j),
    decreases s.len() - j,
{
    if j == s.len() {
        assert(s.subrange(0, j) =~= s);
    } else {
        let t = s.drop_last();
        assert forall|k: int| j <= k < t.len() implies in_class(class, #[trigger] t[k]) by {
            assert(t[k] == s[k]);
        }
        lemma_trim_end(t, class, j);
        assert(t.subrange(0, j) =~= s.subrange(0, j));
    }
}

/// The first position of `chars[from..to]` outside `class`, or `to`.
fn skip_class(chars: &Vec<char>, from: usize, to: usize, class: CharClass) -> (i: usize)
    requires
        from <= to <= chars@.len(),
    ensures
        from <= i <= to,
        forall|k: int| from <= k < i ==> in_class(class, #[trigger] chars@[k]),
        i < to ==> !in_class(class, chars@[i as int]),
{
    let mut i: usize = from;
    while i < to && class.has(chars[i])
        invariant
            from <= i <= to <= chars@.len(),
            forall|k: int| from <= k < i ==> in_class(class, #[trigger] chars@[k]),
        decreases to - i,
    {
        i = i + 1;
    }
    i
}

/// The end of `chars[from..to]` once its trailing characters of `class` are dropped.
fn drop_class(chars: &Vec<char>, from: usize, to: usize, class: CharClass) -> (j: usize)
    requires
        from <= to <= chars@.len(),
    ensures
        from <= j <= to,
        forall|k: int| j <= k < to ==> in_class(class, #[trigger] chars@[k]),
        j > from ==> !in_class(class, chars@[j - 1]),
{
    let mut j: usize = to;
    while j > from && class.has(chars[j - 1])
        invariant
            from <= j <= to <= chars@.len(),
            forall|k: int| j <= k < to ==> in_class(class, #[trigger] chars@[k]),
        decreases j,
    {
        j = j - 1;
    }
    j
}

pub fn trim_start_of(text: &str, class: CharClass) -> (out: String)
    ensures
        out@ == trim_start_class(text@, class),
{
    let chars: Vec<char> = chars_of(text);
    let i: usize = skip_class(&chars, 0, chars.len(), class);
    proof {
        lemma_trim_start(text@, class, i as int);
    }
    string_of(&chars, i, chars.len())
}

pub fn trim_end_of(text: &str, class: CharClass) -> (out: String)
    ensures
        out@ == trim_end_class(text@, class),
{
    let chars: Vec<char> = chars_of(text);
    let j: usize = drop_class(&chars, 0, chars.len(), class);
    proof {
        lemma_trim_end(text@, class, j as int);
    }
    string_of(&chars, 0, j)
}

/// `text` without leading and trailing whitespace.
pub fn trim(text: &str) -> (out: String)
    ensures
        out@ == trimmed(text@),
{
    let chars: Vec<char> = chars_of(text);
    let i: usize = skip_class(&chars, 0, chars.len(), CharClass::White);
    let j: usize = drop_class(&chars, i, chars.len(), CharClass::White);
    proof {
        let s = text@;
        lemma_trim_start(s, CharClass::White, i as int);
        let t = s.subrange(i as int, s.len() as int);
        assert forall|k: int| j - i <= k < t.len() implies in_class(
            CharClass::White,
            #[trigger] t[k],
        ) by {
            assert(t[k] == s[k + i]);
        }
        lemma_trim_end(t, CharClass::White, j - i);
        assert(t.subrange(0, j - i) =~= s.subrange(i as int, j as int));
    }
    string_of(&chars, i, j)
}

/// Whether `text` is empty or whitespace only.
pub fn blank(text: &str) -> (r: bool)
    ensures
        r == is_blank(text@),
{
    trim(text).as_str().is_empty()
}

/// Trimming keeps a run of the text whose ends are not whitespace.
pub proof fn lemma_trimmed_shape(s: Seq<char>) -> (bounds: (int, int))
    ensures
        0 <= bounds.0 <= bounds.1 <= s.len(),
        trimmed(s) == s.subrange(bounds.0, bounds.1),
        forall|k: int| 0 <= k < bounds.0 ==> is_white(#[trigger] s[k]),
        forall|k: int| bounds.1 <= k < s.len() ==> is_white(#[trigger] s[k]),
        bounds.0 < bounds.1 ==> !is_white(s[bounds.0]) && !is_white(s[bounds.1 - 1]),
        bounds.0 == bounds.1 ==> bounds.0 == s.len(),
{
    let i = lemma_leading(s, 0);
    lemma_trim_start(s, CharClass::White, i);
    let t = s.subrange(i, s.len() as int);
    let j = lemma_trailing(t, t.len() as int);
    assert forall|k: int| j <= k < t.len() implies in_class(CharClass::White, #[trigger] t[k]) by {}
    lemma_trim_end(t, CharClass::White, j);
    assert(t.subrange(0, j) =~= s.subrange(i, i + j));
    if i < s.len() {
        assert(t[0] == s[i]);
        assert(j > 0);
        assert(t[j - 1] == s[i + j - 1]);
    }
    assert forall|k: int| i + j <= k < s.len() implies is_white(#[trigger] s[k]) by {
        assert(t[k - i] == s[k]);
    }
    (i, i + j)
}

proof fn lemma_leading(s: Seq<char>, from: int) -> (i: int)
    requires
        0 <= from <= s.len(),
        forall|k: int| 0 <= k < from ==> is_white(#[trigger] s[k]),
    ensures
        from <= i <= s.len(),
        forall|k: int| 0 <= k < i ==> is_white(#[trigger] s[k]),
        i < s.len() ==> !is_white(s[i]),
    decreases s.len() - from,
{
    if from < s.len() && is_white(s[from]) {
        lemma_leading(s, from + 1)
    } else {
        from
    }
}

proof fn lemma_trailing(s: Seq<char>, to: int) -> (j: int)
    requires
        0 <= to <= s.len(),
        forall|k: int| to <= k < s.len() ==> is_white(#[trigger] s[k]),
    ensures
        0 <= j <= to,
        forall|k: int| j <= k < s.len() ==> is_white(#[trigger] s[k]),
        j > 0 ==> !is_white(s[j - 1]),
    decreases to,
{
    if to > 0 && is_white(s[to - 1]) {
        lemma_trailing(s, to - 1)
    } else {
        to
    }
}

/// Trimming twice is trimming once.
pub proof fn lemma_trim_idempotent(s: Seq<char>)
    ensures
        trimmed(trimmed(s)) == trimmed(s),
        trimmed(s).len() <= s.len(),
{
    let (a, b) = lemma_trimmed_shape(s);
    let t = trimmed(s);
    if a < b {
        assert(t[0] == s[a]);
        assert(t[t.len() - 1] == s[b - 1]);
        lemma_trim_start(t, CharClass::White, 0);
        assert(t.subrange(0, t.len() as int) =~= t);
        lemma_trim_end(t, CharClass::White, t.len() as int);
    } else {
        lemma_trim_start(t, CharClass::White, 0);
        lemma_trim_end(t, CharClass::White, 0);
        assert(t.subrange(0, 0) =~= t);
    }
}

// ---------------------------------------------------------------------------
// Searching and replacing
// ---------------------------------------------------------------------------

/// Whether `pattern` stands in `s` at `i`.
pub open spec fn matches_at(s: Seq<char>, pattern: Seq<char>, i: int) -> bool {
    0 <= i && i + pattern.len() <= s.len() && s.subrange(i, i + pattern.len()) == pattern
}

/// Whether `pattern` stands anywhere in `s`.
pub open spec fn occurs(s: Seq<char>, pattern: Seq<char>) -> bool {
    exists|i: int| matches_at(s, pattern, i)
}

/// Whether `i` is the first position of `pattern` in `s`.
pub open spec fn first_at(s: Seq<char>, pattern: Seq<char>, i: int) -> bool {
    matches_at(s, pattern, i) && forall|k: int| 0 <= k < i ==> !matches_at(s, pattern, k)
}

/// Whether `i` is the last position of `pattern` in `s`.
pub open spec fn last_at(s: Seq<char>, pattern: Seq<char>, i: int) -> bool {
    matches_at(s, pattern, i) && forall|k: int| i < k ==> !matches_at(s, pattern, k)
}

/// The first position of `pattern` in `s`, if there is one.
pub open spec fn found(s: Seq<char>, pattern: Seq<char>) -> Option<int> {
    if occurs(s, pattern) {
        Some(choose|i: int| first_at(s, pattern, i))
    } else {
        None
    }
}

pub proof fn lemma_found(s: Seq<char>, pattern: Seq<char>, i: int)
    requires
        first_at(s, pattern, i),
    ensures
        found(s, pattern) == Some(i),
{
    assert(matches_at(s, pattern, i));
    let j = choose|j: int| first_at(s, pattern, j);
    assert(first_at(s, pattern, j));
    if i < j {
        assert(!matches_at(s, pattern, i));
    }
    if j < i {
        assert(!matches_at(s, pattern, j));
    }
}

/// The last position of `pattern` in `s`, if there is one.
pub open spec fn found_last(s: Seq<char>, pattern: Seq<char>) -> Option<int> {
    if occurs(s, pattern) {
        Some(choose|i: int| last_at(s, pattern, i))
    } else {
        None
    }
}

pub proof fn lemma_found_last(s: Seq<char>, pattern: Seq<char>, i: int)
    requires
        last_at(s, pattern, i),
    ensures
        found_last(s, pattern) == Some(i),
{
    assert(matches_at(s, pattern, i));
    let j = choose|j: int| last_at(s, pattern, j);
    assert(last_at(s, pattern, j));
    if i < j {
        assert(!matches_at(s, pattern, j));
    }
    if j < i {
        assert(!matches_at(s, pattern, i));
    }
}

fn stands_at(chars: &Vec<char>, pattern: &Vec<char>, i: usize) -> (r: bool)
    requires
        i <= chars@.len(),
    ensures
        r == matches_at(chars@, pattern@, i as int),
{
    if pattern.len() > chars.len() - i {
        return false;
    }
    let mut k: usize = 0;
    while k < pattern.len()
        invariant
            k <= pattern@.len(),
            i + pattern@.len() <= chars.len(),
            forall|m: int| 0 <= m < k ==> chars@[i + m] == #[trigger] pattern@[m],
        decreases pattern@.len() - k,
    {
        if chars[i + k] != pattern[k] {
            proof {
                assert(chars@.subrange(i as int, i + pattern@.len())[k as int] == chars@[i + k]);
            }
            return false;
        }
        k = k + 1;
    }
    assert(chars@.subrange(i as int, i + pattern@.len()) =~= pattern@);
    true
}

/// The first position of `pattern` in `text`.
pub fn find(text: &str, pattern: &str) -> (r: Option<usize>)
    ensures
        match r {
            Some(i) => first_at(text@, pattern@, i as int) && found(text@, pattern@) == Some(
                i as int,
            ),
            None => !occurs(text@, pattern@) && found(text@, pattern@) is None,
        },
        text@.len() <= usize::MAX,
{
    let chars: Vec<char> = chars_of(text);
    let wanted: Vec<char> = chars_of(pattern);
    let mut i: usize = 0;
    while i < chars.len()
        invariant
            i <= chars@.len(),
            chars@ == text@,
            wanted@ == pattern@,
            forall|k: int| 0 <= k < i ==> !matches_at(text@, pattern@, k),
        decreases chars@.len() - i,
    {
        if stands_at(&chars, &wanted, i) {
            proof {
                lemma_found(text@, pattern@, i as int);
            }
            return Some(i);
        }
        i = i + 1;
    }
    if stands_at(&chars, &wanted, i) {
        proof {
            lemma_found(text@, pattern@, i as int);
        }
        return Some(i);
    }
    None
}

/// The last position of `pattern` in `text`.
pub fn rfind(text: &str, pattern: &str) -> (r: Option<usize>)
    ensures
        match r {
            Some(i) => last_at(text@, pattern@, i as int) && found_last(text@, pattern@) == Some(
                i as int,
            ),
            None => !occurs(text@, pattern@) && found_last(text@, pattern@) is None,
        },
        text@.len() <= usize::MAX,
{
    let chars: Vec<char> = chars_of(text);
    let wanted: Vec<char> = chars_of(pattern);
    let mut i: usize = chars.len();
    while i > 0
        invariant
            i <= chars.len(),
            chars@ == text@,
            wanted@ == pattern@,
            forall|k: int| i < k ==> !matches_at(text@, pattern@, k),
        decreases i,
    {
        if stands_at(&chars, &wanted, i) {
            proof {
                lemma_found_last(text@, pattern@, i as int);
            }
            return Some(i);
        }
        i = i - 1;
    }
    if stands_at(&chars, &wanted, i) {
        proof {
            lemma_found_last(text@, pattern@, i as int);
        }
        return Some(i);
    }
    None
}

/// Whether `pattern` stands anywhere in `text`.
pub fn contains(text: &str, pattern: &str) -> (r: bool)
    ensures
        r == occurs(text@, pattern@),
{
    match find(text, pattern) {
        Some(i) => {
            assert(matches_at(text@, pattern@, i as int));
            true
        },
        None => false,
    }
}

/// Whether `wanted` is one of the characters of `text`.
pub fn contains_char(text: &str, wanted: char) -> (r: bool)
    ensures
        r == text@.contains(wanted),
{
    let chars: Vec<char> = chars_of(text);
    let mut i: usize = 0;
    while i < chars.len()
        invariant
            i <= chars@.len(),
            chars@ == text@,
            forall|k: int| 0 <= k < i ==> text@[k] != wanted,
        decreases chars@.len() - i,
    {
        if chars[i] == wanted {
            assert(text@[i as int] == wanted);
            return true;
        }
        i = i + 1;
    }
    false
}

pub fn starts_with(text: &str, prefix: &str) -> (r: bool)
    ensures
        r == prefix@.is_prefix_of(text@),
{
    let chars: Vec<char> = chars_of(text);
    let wanted: Vec<char> = chars_of(prefix);
    let r: bool = stands_at(&chars, &wanted, 0);
    r
}

pub fn ends_with(text: &str, suffix: &str) -> (r: bool)
    ensures
        r == suffix@.is_suffix_of(text@),
{
    let chars: Vec<char> = chars_of(text);
    let wanted: Vec<char> = chars_of(suffix);
    if wanted.len() > chars.len() {
        return false;
    }
    stands_at(&chars, &wanted, chars.len() - wanted.len())
}

/// `text` from position `from` on.
pub fn suffix_from(text: &str, from: usize) -> (out: String)
    requires
        from <= text@.len(),
    ensures
        out@ == text@.subrange(from as int, text@.len() as int),
{
    let chars: Vec<char> = chars_of(text);
    string_of(&chars, from, chars.len())
}

/// `text` up to position `to`.
pub fn prefix_to(text: &str, to: usize) -> (out: String)
    requires
        to <= text@.len(),
    ensures
        out@ == text@.subrange(0, to as int),
{
    let chars: Vec<char> = chars_of(text);
    string_of(&chars, 0, to)
}

/// `s` from `i` on with every occurrence of `pattern`, left to right, replaced by `to`.
pub open spec fn replaced_from(
    s: Seq<char>,
    pattern: Seq<char>,
    to: Seq<char>,
    i: int,
) -> Seq<char>
    decreases s.len() - i,
{
    if i < 0 || i >= s.len() {
        Seq::empty()
    } else if pattern.len() > 0 && matches_at(s, pattern, i) {
        to + replaced_from(s, pattern, to, i + pattern.len())
    } else {
        seq![s[i]] + replaced_from(s, pattern, to, i + 1)
    }
}

/// `s` with every occurrence of `pattern`, left to right, replaced by `to`.
pub open spec fn replaced(s: Seq<char>, pattern: Seq<char>, to: Seq<char>) -> Seq<char> {
    replaced_from(s, pattern, to, 0)
}

pub fn replace(text: &str, pattern: &str, to: &str) -> (out: String)
    requires
        pattern@.len() > 0,
    ensures
        out@ == replaced(text@, pattern@, to@),
{
    let chars: Vec<char> = chars_of(text);
    let wanted: Vec<char> = chars_of(pattern);
    let mut out: String = String::new();
    let mut i: usize = 0;
    while i < chars.len()
        invariant
            i <= chars@.len(),
            chars@ == text@,
            wanted@ == pattern@,
            pattern@.len() > 0,
            out@ + replaced_from(text@, pattern@, to@, i as int) == replaced(text@, pattern@, to@),
        decreases chars@.len() - i,
    {
        let ghost before = out@;
        let ghost rest = replaced_from(text@, pattern@, to@, i as int);
        if stands_at(&chars, &wanted, i) {
            out.append(to);
            i = i + wanted.len();
            assert(out@ + replaced_from(text@, pattern@, to@, i as int) =~= before + rest);
        } else {
            out.push(chars[i]);
            i = i + 1;
            assert(out@ + replaced_from(text@, pattern@, to@, i as int) =~= before + rest);
        }
    }
    assert(out@ + replaced_from(text@, pattern@, to@, i as int) =~= out@);
    out
}

// ---------------------------------------------------------------------------
// Splitting and joining
// ---------------------------------------------------------------------------

/// The pieces of `s[start..]` cut at every `separator` found from `i` on.
pub open spec fn split_from(s: Seq<char>, separator: char, start: int, i: int) -> Seq<Seq<char>>
    decreases s.len() - i,
{
    if i < 0 || i >= s.len() {
        seq![s.subrange(start, s.len() as int)]
    } else if s[i] == separator {
        seq![s.subrange(start, i)] + split_from(s, separator, i + 1, i + 1)
    } else {
        split_from(s, separator, start, i + 1)
    }
}

/// The pieces of `s` between its separators: one more than there are separators.
pub open spec fn pieces(s: Seq<char>, separator: char) -> Seq<Seq<char>> {
    split_from(s, separator, 0, 0)
}

pub fn split(text: &str, separator: char) -> (out: Vec<String>)
    ensures
        texts(out@) == pieces(text@, separator),
        out@.len() > 0,
{
    let chars: Vec<char> = chars_of(text);
    let mut out: Vec<String> = Vec::new();
    let mut start: usize = 0;
    let mut i: usize = 0;
    while i < chars.len()
        invariant
            start <= i <= chars@.len(),
            chars@ == text@,
            texts(out@) + split_from(text@, separator, start as int, i as int) == pieces(
                text@,
                separator,
            ),
        decreases chars@.len() - i,
    {
        let ghost before = texts(out@);
        let ghost rest = split_from(text@, separator, start as int, i as int);
        if chars[i] == separator {
            let piece: String = string_of(&chars, start, i);
            let ghost old_out = out@;
            out.push(piece);
            i = i + 1;
            start = i;
            assert(texts(out@) =~= before.push(piece@));
            assert(texts(out@) + split_from(text@, separator, start as int, i as int) =~= before
                + rest);
        } else {
            i = i + 1;
        }
    }
    let piece: String = string_of(&chars, start, chars.len());
    let ghost before = texts(out@);
    out.push(piece);
    assert(texts(out@) =~= before.push(piece@));
    assert(texts(out@) =~= pieces(text@, separator));
    out
}

/// The pieces of `s[start..]` cut at every `separator` that stands at `i` or later.
pub open spec fn cut_from(s: Seq<char>, separator: Seq<char>, start: int, i: int) -> Seq<Seq<char>>
    decreases s.len() - i,
{
    if i < 0 || i >= s.len() {
        seq![s.subrange(start, s.len() as int)]
    } else if separator.len() > 0 && matches_at(s, separator, i) {
        seq![s.subrange(start, i)] + cut_from(
            s,
            separator,
            i + separator.len(),
            i + separator.len(),
        )
    } else {
        cut_from(s, separator, start, i + 1)
    }
}

/// The pieces of `text` between the occurrences of `separator`.
pub fn split_text(text: &str, separator: &str) -> (out: Vec<String>)
    requires
        separator@.len() > 0,
    ensures
        texts(out@) == cut_from(text@, separator@, 0, 0),
{
    let chars: Vec<char> = chars_of(text);
    let wanted: Vec<char> = chars_of(separator);
    let mut out: Vec<String> = Vec::new();
    let mut start: usize = 0;
    let mut i: usize = 0;
    assert(texts(out@) + cut_from(text@, separator@, 0, 0) =~= cut_from(text@, separator@, 0, 0));
    while i < chars.len()
        invariant
            start <= i <= chars.len(),
            chars@ == text@,
            wanted@ == separator@,
            separator@.len() > 0,
            texts(out@) + cut_from(text@, separator@, start as int, i as int) == cut_from(
                text@,
                separator@,
                0,
                0,
            ),
        decreases chars.len() - i,
    {
        let ghost before = texts(out@);
        let ghost rest = cut_from(text@, separator@, start as int, i as int);
        if stands_at(&chars, &wanted, i) {
            let piece: String = string_of(&chars, start, i);
            out.push(piece);
            i = i + wanted.len();
            start = i;
            assert(texts(out@) =~= before.push(piece@));
            assert(texts(out@) + cut_from(text@, separator@, start as int, i as int) =~= before
                + rest);
        } else {
            i = i + 1;
        }
    }
    let piece: String = string_of(&chars, start, chars.len());
    let ghost before = texts(out@);
    out.push(piece);
    assert(texts(out@) =~= before.push(piece@));
    assert(texts(out@) =~= cut_from(text@, separator@, 0, 0));
    out
}

/// A text without the separator is one piece.
pub proof fn lemma_single_piece(s: Seq<char>, separator: char, start: int, i: int)
    requires
        0 <= start <= i <= s.len(),
        split_from(s, separator, start, i).len() == 1,
    ensures
        split_from(s, separator, start, i)[0] == s.subrange(start, s.len() as int),
    decreases s.len() - i,
{
    if i < s.len() {
        if s[i] == separator {
            lemma_some_piece(s, separator, i + 1, i + 1);
        } else {
            lemma_single_piece(s, separator, start, i + 1);
        }
    }
}

pub proof fn lemma_some_piece(s: Seq<char>, separator: char, start: int, i: int)
    ensures
        split_from(s, separator, start, i).len() >= 1,
    decreases s.len() - i,
{
    if 0 <= i < s.len() {
        if s[i] == separator {
            lemma_some_piece(s, separator, i + 1, i + 1);
        } else {
            lemma_some_piece(s, separator, start, i + 1);
        }
    }
}

/// Where no separator follows, the rest is one piece.
pub proof fn lemma_unsplit(s: Seq<char>, separator: char, start: int, i: int)
    requires
        0 <= start <= i <= s.len(),
        forall|k: int| i <= k < s.len() ==> s[k] != separator,
    ensures
        split_from(s, separator, start, i) == seq![s.subrange(start, s.len() as int)],
    decreases s.len() - i,
{
    if i < s.len() {
        lemma_unsplit(s, separator, start, i + 1);
    }
}

proof fn lemma_split_up_to(s: Seq<char>, separator: char, start: int, i: int, cut: int)
    requires
        0 <= start <= i <= cut < s.len(),
        forall|k: int| i <= k < cut ==> s[k] != separator,
        s[cut] == separator,
    ensures
        split_from(s, separator, start, i) == seq![s.subrange(start, cut)] + split_from(
            s,
            separator,
            cut + 1,
            cut + 1,
        ),
    decreases cut - i,
{
    if i < cut {
        lemma_split_up_to(s, separator, start, i + 1, cut);
    }
}

/// Two texts without the separator, joined by it, split into the two again.
pub proof fn lemma_two_pieces(a: Seq<char>, separator: char, b: Seq<char>)
    requires
        forall|k: int| 0 <= k < a.len() ==> a[k] != separator,
        forall|k: int| 0 <= k < b.len() ==> b[k] != separator,
    ensures
        pieces(a + seq![separator] + b, separator) == seq![a, b],
{
    let s = a + seq![separator] + b;
    lemma_split_up_to(s, separator, 0, 0, a.len() as int);
    assert forall|k: int| a.len() + 1 <= k < s.len() implies s[k] != separator by {
        assert(s[k] == b[k - a.len() - 1]);
    }
    lemma_unsplit(s, separator, a.len() as int + 1, a.len() as int + 1);
    assert(s.subrange(0, a.len() as int) =~= a);
    assert(s.subrange(a.len() as int + 1, s.len() as int) =~= b);
    assert(pieces(s, separator) =~= seq![a, b]);
}

/// `parts` with `separator` between neighbours.
pub open spec fn join_spec(parts: Seq<Seq<char>>, separator: Seq<char>) -> Seq<char>
    decreases parts.len(),
{
    if parts.len() == 0 {
        Seq::empty()
    } else if parts.len() == 1 {
        parts[0]
    } else {
        join_spec(parts.drop_last(), separator) + separator + parts.last()
    }
}

pub fn join(parts: &Vec<String>, separator: &str) -> (out: String)
    ensures
        out@ == join_spec(texts(parts@), separator@),
{
    let mut out: String = String::new();
    let mut i: usize = 0;
    while i < parts.len()
        invariant
            i <= parts@.len(),
            out@ == join_spec(texts(parts@).take(i as int), separator@),
        decreases parts@.len() - i,
    {
        let ghost done = texts(parts@).take(i as int);
        let ghost next = texts(parts@).take(i + 1);
        assert(next.drop_last() =~= done);
        assert(next.last() == parts@[i as int]@);
        if i > 0 {
            out.append(separator);
        } else {
            assert(next =~= seq![parts@[0]@]);
        }
        out.append(parts[i].as_str());
        i = i + 1;
        assert(out@ =~= join_spec(next, separator@));
    }
    assert(texts(parts@).take(i as int) =~= texts(parts@));
    out
}

/// `s` without one trailing carriage return.
pub open spec fn without_cr(s: Seq<char>) -> Seq<char> {
    if s.len() > 0 && s.last() == '\r' {
        s.drop_last()
    } else {
        s
    }
}

/// The lines of `s`: a line ends at `\n` or `\r\n`, and the last ending is optional.
pub open spec fn lines_spec(s: Seq<char>) -> Seq<Seq<char>> {
    let all = pieces(s, '\n');
    let count = if all.last().len() == 0 {
        all.len() - 1
    } else {
        all.len() as int
    };
    Seq::new(
        count as nat,
        |i: int|
            if i < all.len() - 1 {
                without_cr(all[i])
            } else {
                all[i]
            },
    )
}

pub fn lines(text: &str) -> (out: Vec<String>)
    ensures
        texts(out@) == lines_spec(text@),
{
    let all: Vec<String> = split(text, '\n');
    let last: usize = all.len() - 1;
    assert(texts(all@).last() == all@[last as int]@);
    let count: usize = if all[last].as_str().is_empty() {
        last
    } else {
        all.len()
    };
    let mut out: Vec<String> = Vec::new();
    let mut i: usize = 0;
    while i < count
        invariant
            i <= count <= all@.len(),
            last == all@.len() - 1,
            out@.len() == i,
            texts(all@) == pieces(text@, '\n'),
            forall|k: int|
                0 <= k < i ==> (#[trigger] out@[k])@ == if k < last {
                    without_cr(texts(all@)[k])
                } else {
                    texts(all@)[k]
                },
        decreases count - i,
    {
        let piece: String = all[i].clone();
        assert(piece@ == texts(all@)[i as int]);
        if i < last {
            out.push(strip_cr(piece));
        } else {
            out.push(piece);
        }
        i = i + 1;
    }
    assert(texts(out@) =~= lines_spec(text@));
    out
}

fn strip_cr(line: String) -> (out: String)
    ensures
        out@ == without_cr(line@),
{
    let chars: Vec<char> = chars_of(line.as_str());
    if chars.len() > 0 && chars[chars.len() - 1] == '\r' {
        let cut: String = string_of(&chars, 0, chars.len() - 1);
        assert(cut@ =~= line@.drop_last());
        cut
    } else {
        line
    }
}

// ---------------------------------------------------------------------------
// Order
// ---------------------------------------------------------------------------

/// Whether `a[i..]` comes before `b[i..]` in lexicographic order.
pub open spec fn before_from(a: Seq<char>, b: Seq<char>, i: int) -> bool
    decreases b.len() - i,
{
    if i < 0 || i >= b.len() {
        false
    } else if i >= a.len() {
        true
    } else if a[i] != b[i] {
        a[i] < b[i]
    } else {
        before_from(a, b, i + 1)
    }
}

/// Whether `a` comes before `b` in lexicographic order.
pub open spec fn before(a: Seq<char>, b: Seq<char>) -> bool {
    before_from(a, b, 0)
}

/// Whether `a` comes before `b` in lexicographic order.
pub fn comes_before(a: &str, b: &str) -> (r: bool)
    ensures
        r == before(a@, b@),
{
    let x: Vec<char> = chars_of(a);
    let y: Vec<char> = chars_of(b);
    let mut i: usize = 0;
    while i < y.len()
        invariant
            i <= y.len(),
            x@ == a@,
            y@ == b@,
            before(a@, b@) == before_from(a@, b@, i as int),
        decreases y.len() - i,
    {
        if i >= x.len() {
            return true;
        }
        if x[i] != y[i] {
            return x[i] < y[i];
        }
        i = i + 1;
    }
    false
}

proof fn lemma_before_from_total(a: Seq<char>, b: Seq<char>, i: int)
    requires
        0 <= i,
        i <= a.len(),
        i <= b.len(),
        forall|k: int| 0 <= k < i ==> a[k] == b[k],
    ensures
        !(before_from(a, b, i) && before_from(b, a, i)),
        before_from(a, b, i) || before_from(b, a, i) || a == b,
        a == b ==> !before_from(a, b, i),
    decreases a.len() + b.len() - i,
{
    if i < a.len() && i < b.len() {
        if a[i] == b[i] {
            lemma_before_from_total(a, b, i + 1);
        }
    } else if i == a.len() && i == b.len() {
        assert(a =~= b);
    }
}

/// Of two different texts exactly one comes first.
pub proof fn lemma_before_total(a: Seq<char>, b: Seq<char>)
    ensures
        !(before(a, b) && before(b, a)),
        before(a, b) || before(b, a) || a == b,
        !before(a, a),
{
    lemma_before_from_total(a, b, 0);
    lemma_before_from_total(a, a, 0);
}

proof fn lemma_before_from_transitive(a: Seq<char>, b: Seq<char>, c: Seq<char>, i: int)
    requires
        0 <= i,
        before_from(a, b, i),
        before_from(b, c, i),
    ensures
        before_from(a, c, i),
    decreases c.len() - i,
{
    if i < a.len() && a[i] == b[i] && b[i] == c[i] {
        lemma_before_from_transitive(a, b, c, i + 1);
    }
}

pub proof fn lemma_before_transitive(a: Seq<char>, b: Seq<char>, c: Seq<char>)
    requires
        before(a, b),
        before(b, c),
    ensures
        before(a, c),
{
    lemma_before_from_transitive(a, b, c, 0);
}

// ---------------------------------------------------------------------------
// ASCII case
// ---------------------------------------------------------------------------

/// The lower-case form of an ASCII letter; other characters stay.
pub open spec fn lower_char(c: char) -> char {
    if 'A' <= c <= 'Z' {
        ((c as u8) + 32u8) as u8 as char
    } else {
        c
    }
}

pub open spec fn ascii_lower(s: Seq<char>) -> Seq<char> {
    Seq::new(s.len(), |i: int| lower_char(s[i]))
}

/// `text` with ASCII letters in lower case.
pub fn to_ascii_lower(text: &str) -> (out: String)
    ensures
        out@ == ascii_lower(text@),
{
    let chars: Vec<char> = chars_of(text);
    let mut out: String = String::new();
    let mut i: usize = 0;
    while i < chars.len()
        invariant
            i <= chars.len(),
            chars@ == text@,
            out@ == ascii_lower(text@).take(i as int),
        decreases chars.len() - i,
    {
        let c: char = chars[i];
        let lower: char = if 'A' <= c && c <= 'Z' {
            let code: u8 = c as u8;
            (code + 32) as char
        } else {
            c
        };
        out.push(lower);
        i = i + 1;
        assert(out@ =~= ascii_lower(text@).take(i as int));
    }
    assert(ascii_lower(text@).take(i as int) =~= ascii_lower(text@));
    out
}

// ---------------------------------------------------------------------------
// Words
// ---------------------------------------------------------------------------

/// The first position from `i` on that holds whitespace (or not, for `white` false).
pub open spec fn run_end(s: Seq<char>, i: int, white: bool) -> int
    decreases s.len() - i,
{
    if i < 0 || i >= s.len() || is_white(s[i]) != white {
        i
    } else {
        run_end(s, i + 1, white)
    }
}

proof fn lemma_run_end(s: Seq<char>, i: int, white: bool)
    requires
        0 <= i <= s.len(),
    ensures
        i <= run_end(s, i, white) <= s.len(),
        i < s.len() && is_white(s[i]) == white ==> i < run_end(s, i, white),
    decreases s.len() - i,
{
    if i < s.len() && is_white(s[i]) == white {
        lemma_run_end(s, i + 1, white);
    }
}

/// The maximal runs of `s[i..]` without whitespace, in order.
pub open spec fn words_from(s: Seq<char>, i: int) -> Seq<Seq<char>>
    decreases s.len() - i,
{
    let start = run_end(s, i, true);
    let end = run_end(s, start, false);
    if i < 0 || i > s.len() || start >= s.len() || end > s.len() || end <= start || start < i {
        Seq::empty()
    } else {
        seq![s.subrange(start, end)] + words_from(s, end)
    }
}

/// The maximal runs of `s` without whitespace, in order.
pub open spec fn words_spec(s: Seq<char>) -> Seq<Seq<char>> {
    words_from(s, 0)
}

fn skip_run(chars: &Vec<char>, from: usize, white: bool) -> (to: usize)
    requires
        from <= chars.len(),
    ensures
        to == run_end(chars@, from as int, white),
        from <= to <= chars.len(),
{
    let mut i: usize = from;
    while i < chars.len() && CharClass::White.has(chars[i]) == white
        invariant
            from <= i <= chars.len(),
            run_end(chars@, i as int, white) == run_end(chars@, from as int, white),
        decreases chars.len() - i,
    {
        i = i + 1;
    }
    i
}

/// The words of `text`: its maximal runs without whitespace.
pub fn words(text: &str) -> (out: Vec<String>)
    ensures
        texts(out@) == words_spec(text@),
{
    let chars: Vec<char> = chars_of(text);
    let mut out: Vec<String> = Vec::new();
    let mut i: usize = 0;
    while i < chars.len()
        invariant
            i <= chars.len(),
            chars@ == text@,
            texts(out@) + words_from(text@, i as int) == words_spec(text@),
        decreases chars.len() - i,
    {
        let ghost before = texts(out@);
        let ghost rest = words_from(text@, i as int);
        let start: usize = skip_run(&chars, i, true);
        if start == chars.len() {
            assert(rest =~= Seq::<Seq<char>>::empty());
            assert(texts(out@) =~= words_spec(text@));
            return out;
        }
        let end: usize = skip_run(&chars, start, false);
        proof {
            lemma_run_end(text@, i as int, true);
            lemma_run_end(text@, start as int, false);
        }
        assert(!is_white(text@[start as int])) by {
            lemma_run_stops(text@, i as int, true);
        }
        out.push(string_of(&chars, start, end));
        assert(texts(out@) =~= before.push(text@.subrange(start as int, end as int)));
        i = end;
        assert(texts(out@) + words_from(text@, i as int) =~= before + rest);
    }
    assert(words_from(text@, i as int) =~= Seq::<Seq<char>>::empty());
    assert(texts(out@) =~= words_spec(text@));
    out
}

proof fn lemma_run_stops(s: Seq<char>, i: int, white: bool)
    requires
        0 <= i <= s.len(),
    ensures
        run_end(s, i, white) < s.len() ==> is_white(s[run_end(s, i, white)]) != white,
    decreases s.len() - i,
{
    if i < s.len() && is_white(s[i]) == white {
        lemma_run_stops(s, i + 1, white);
    }
}

/// What is joined stands in what it is joined to.
pub proof fn lemma_join_holds(parts: Seq<Seq<char>>, separator: Seq<char>, j: int)
    requires
        0 <= j < parts.len(),
    ensures
        occurs(join_spec(parts, separator), parts[j]),
    decreases parts.len(),
{
    let joined = join_spec(parts, separator);
    if j == parts.len() - 1 {
        assert(joined.subrange(joined.len() - parts[j].len(), joined.len() as int) =~= parts[j]);
        assert(matches_at(joined, parts[j], joined.len() - parts[j].len()));
    } else {
        let front = parts.drop_last();
        lemma_join_holds(front, separator, j);
        let head = join_spec(front, separator);
        let at = choose|at: int| matches_at(head, parts[j], at);
        assert(joined.subrange(at, at + parts[j].len()) =~= head.subrange(at, at + parts[j].len()));
        assert(matches_at(joined, parts[j], at));
    }
}

/// What stands in a text stands in a longer one.
pub proof fn lemma_occurs_within(a: Seq<char>, b: Seq<char>, c: Seq<char>, pattern: Seq<char>)
    requires
        occurs(b, pattern),
    ensures
        occurs(a + b + c, pattern),
{
    let at = choose|at: int| matches_at(b, pattern, at);
    let all = a + b + c;
    assert(all.subrange(a.len() + at, a.len() + at + pattern.len()) =~= b.subrange(
        at,
        at + pattern.len(),
    ));
    assert(matches_at(all, pattern, a.len() + at));
}

} // verus!
