//! Cutting text into slices of so many tokens.

use vstd::prelude::*;

use crate::services::patterns;
use crate::text;
use crate::utf16;

verus! {

/// The tokens that the cl100k encoding gives for a text.
pub uninterp spec fn cl100k_tokens(s: Seq<char>) -> Seq<u32>;

/// The bytes that tokens of the cl100k encoding stand for.
pub uninterp spec fn cl100k_bytes(tokens: Seq<u32>) -> Seq<u8>;

// ---------------------------------------------------------------------------
// Texts that can be tokenized
// ---------------------------------------------------------------------------

/// The longest stretch that is tokenized as one word.
pub const LONGEST_STRETCH: usize = 999_000;

pub open spec fn ascii_digit(c: char) -> bool {
    '0' <= c <= '9'
}

/// Letters of the scripts in common use.
pub open spec fn word_char(c: char) -> bool {
    ||| 'a' <= c <= 'z'
    ||| 'A' <= c <= 'Z'
    ||| '\u{c0}' <= c <= '\u{d6}'
    ||| '\u{d8}' <= c <= '\u{f6}'
    ||| '\u{f8}' <= c <= '\u{2c1}'
    ||| '\u{370}' <= c <= '\u{373}'
    ||| '\u{388}' <= c <= '\u{38a}'
    ||| '\u{38e}' <= c <= '\u{3a1}'
    ||| '\u{3a3}' <= c <= '\u{3f5}'
    ||| '\u{3f7}' <= c <= '\u{481}'
    ||| '\u{48a}' <= c <= '\u{52f}'
    ||| '\u{531}' <= c <= '\u{556}'
    ||| '\u{561}' <= c <= '\u{587}'
    ||| '\u{5d0}' <= c <= '\u{5ea}'
    ||| '\u{620}' <= c <= '\u{64a}'
    ||| '\u{904}' <= c <= '\u{939}'
    ||| '\u{e01}' <= c <= '\u{e30}'
    ||| '\u{10d0}' <= c <= '\u{10fa}'
    ||| '\u{1100}' <= c <= '\u{11ff}'
    ||| '\u{1e00}' <= c <= '\u{1eff}'
    ||| '\u{3041}' <= c <= '\u{3096}'
    ||| '\u{30a1}' <= c <= '\u{30fa}'
    ||| '\u{3105}' <= c <= '\u{312f}'
    ||| '\u{3400}' <= c <= '\u{4dbf}'
    ||| '\u{4e00}' <= c <= '\u{9fff}'
    ||| '\u{ac00}' <= c <= '\u{d7a3}'
    ||| '\u{20000}' <= c <= '\u{2a6df}'
}

/// Punctuation, marks and symbols in common use: never letters.
pub open spec fn mark_char(c: char) -> bool {
    ||| (c as u32) < 0x80 && !ascii_digit(c) && !word_char(c)
    ||| '\u{a1}' <= c <= '\u{a9}'
    ||| '\u{ab}' <= c <= '\u{b4}'
    ||| '\u{b6}' <= c <= '\u{b9}'
    ||| '\u{bb}' <= c <= '\u{bf}'
    ||| '\u{300}' <= c <= '\u{36f}'
    ||| '\u{2010}' <= c <= '\u{2027}'
    ||| '\u{2030}' <= c <= '\u{205e}'
    ||| '\u{2190}' <= c <= '\u{2bff}'
    ||| '\u{3001}' <= c <= '\u{3003}'
    ||| '\u{3008}' <= c <= '\u{3020}'
    ||| '\u{fe00}' <= c <= '\u{fe6f}'
    ||| '\u{ff01}' <= c <= '\u{ff0f}'
    ||| '\u{ff1a}' <= c <= '\u{ff20}'
    ||| '\u{ff3b}' <= c <= '\u{ff40}'
    ||| '\u{ff5b}' <= c <= '\u{ff65}'
    ||| '\u{1f000}' <= c <= '\u{1fbef}'
}

/// Whether the tokenizer's words part between `before` and `c`: a letter ends there, or
/// white space does.
pub open spec fn parts(before: char, c: char) -> bool {
    ||| word_char(before) && (mark_char(c) || text::is_white(c))
    ||| text::is_white(before) && !text::is_white(c)
}

/// Whether a word of the tokenizer that reaches across position `i` starts no more than
/// one character before it: a digit stands there, or words part there.
pub open spec fn parted_at(s: Seq<char>, i: int) -> bool {
    0 <= i < s.len() && (ascii_digit(s[i]) || (i > 0 && parts(s[i - 1], s[i])))
}

/// How many characters before `i` follow the last position that parts words.
pub open spec fn stretch(s: Seq<char>, i: int) -> nat
    decreases i,
{
    if i <= 0 {
        0
    } else if parted_at(s, i - 1) {
        1
    } else {
        1 + stretch(s, i - 1)
    }
}

/// Whether nothing in `s` is too long to be tokenized as one word.
pub open spec fn tokenizable(s: Seq<char>) -> bool {
    forall|i: int| 0 <= i <= s.len() ==> #[trigger] stretch(s, i) < LONGEST_STRETCH
}

fn is_word_char(c: char) -> (r: bool)
    ensures
        r == word_char(c),
{
    ('a' <= c && c <= 'z') || ('A' <= c && c <= 'Z') || ('\u{c0}' <= c && c <= '\u{d6}')
        || ('\u{d8}' <= c && c <= '\u{f6}') || ('\u{f8}' <= c && c <= '\u{2c1}')
        || ('\u{370}' <= c && c <= '\u{373}') || ('\u{388}' <= c && c <= '\u{38a}')
        || ('\u{38e}' <= c && c <= '\u{3a1}') || ('\u{3a3}' <= c && c <= '\u{3f5}')
        || ('\u{3f7}' <= c && c <= '\u{481}') || ('\u{48a}' <= c && c <= '\u{52f}')
        || ('\u{531}' <= c && c <= '\u{556}') || ('\u{561}' <= c && c <= '\u{587}')
        || ('\u{5d0}' <= c && c <= '\u{5ea}') || ('\u{620}' <= c && c <= '\u{64a}')
        || ('\u{904}' <= c && c <= '\u{939}') || ('\u{e01}' <= c && c <= '\u{e30}')
        || ('\u{10d0}' <= c && c <= '\u{10fa}') || ('\u{1100}' <= c && c <= '\u{11ff}')
        || ('\u{1e00}' <= c && c <= '\u{1eff}') || ('\u{3041}' <= c && c <= '\u{3096}')
        || ('\u{30a1}' <= c && c <= '\u{30fa}') || ('\u{3105}' <= c && c <= '\u{312f}')
        || ('\u{3400}' <= c && c <= '\u{4dbf}') || ('\u{4e00}' <= c && c <= '\u{9fff}')
        || ('\u{ac00}' <= c && c <= '\u{d7a3}') || ('\u{20000}' <= c && c <= '\u{2a6df}')
}

fn is_mark_char(c: char) -> (r: bool)
    ensures
        r == mark_char(c),
{
    let digit: bool = '0' <= c && c <= '9';
    let code: u32 = c as u32;
    proof {
        utf16::lemma_scalar(c);
    }
    (code < 0x80 && !digit && !is_word_char(c)) || ('\u{a1}' <= c && c <= '\u{a9}')
        || ('\u{ab}' <= c && c <= '\u{b4}') || ('\u{b6}' <= c && c <= '\u{b9}')
        || ('\u{bb}' <= c && c <= '\u{bf}') || ('\u{300}' <= c && c <= '\u{36f}')
        || ('\u{2010}' <= c && c <= '\u{2027}') || ('\u{2030}' <= c && c <= '\u{205e}')
        || ('\u{2190}' <= c && c <= '\u{2bff}') || ('\u{3001}' <= c && c <= '\u{3003}')
        || ('\u{3008}' <= c && c <= '\u{3020}') || ('\u{fe00}' <= c && c <= '\u{fe6f}')
        || ('\u{ff01}' <= c && c <= '\u{ff0f}') || ('\u{ff1a}' <= c && c <= '\u{ff20}')
        || ('\u{ff3b}' <= c && c <= '\u{ff40}') || ('\u{ff5b}' <= c && c <= '\u{ff65}')
        || ('\u{1f000}' <= c && c <= '\u{1fbef}')
}

fn words_part(before: char, c: char) -> (r: bool)
    ensures
        r == parts(before, c),
{
    let white: bool = text::CharClass::White.has(c);
    (is_word_char(before) && (white || is_mark_char(c))) || (text::CharClass::White.has(before)
        && !white)
}

/// Whether nothing in `content` is too long to be tokenized as one word.
pub fn is_tokenizable(content: &str) -> (r: bool)
    ensures
        r == tokenizable(content@),
{
    let chars: Vec<char> = text::chars_of(content);
    let mut run: usize = 0;
    let mut i: usize = 0;
    while i < chars.len()
        invariant
            i <= chars.len(),
            chars@ == content@,
            run == stretch(content@, i as int),
            run < LONGEST_STRETCH,
            forall|k: int| 0 <= k <= i ==> #[trigger] stretch(content@, k) < LONGEST_STRETCH,
        decreases chars.len() - i,
    {
        let c: char = chars[i];
        let digit: bool = '0' <= c && c <= '9';
        let parted: bool = digit || (i > 0 && words_part(chars[i - 1], c));
        run = if parted {
            1
        } else {
            run + 1
        };
        i = i + 1;
        assert(run == stretch(content@, i as int));
        if run >= LONGEST_STRETCH {
            return false;
        }
    }
    true
}

proof fn lemma_stretch_suffix(s: Seq<char>, n: int, i: int)
    requires
        0 <= n <= s.len(),
        0 <= i <= s.len() - n,
    ensures
        stretch(s.subrange(n, s.len() as int), i) <= stretch(s, n + i),
    decreases i,
{
    let t = s.subrange(n, s.len() as int);
    if i > 0 {
        lemma_stretch_suffix(s, n, i - 1);
        assert(t[i - 1] == s[n + i - 1]);
        if i > 1 {
            assert(t[i - 2] == s[n + i - 2]);
        }
        if parted_at(s, n + i - 1) && !parted_at(t, i - 1) {
            assert(i == 1);
            assert(stretch(t, 0) == 0);
        }
    }
}

proof fn lemma_tokenizable_suffix(s: Seq<char>, n: int)
    requires
        0 <= n <= s.len(),
        tokenizable(s),
    ensures
        tokenizable(s.subrange(n, s.len() as int)),
{
    let t = s.subrange(n, s.len() as int);
    assert forall|i: int| 0 <= i <= t.len() implies #[trigger] stretch(t, i) < LONGEST_STRETCH by {
        lemma_stretch_suffix(s, n, i);
        assert(stretch(s, n + i) < LONGEST_STRETCH);
    }
}

// ---------------------------------------------------------------------------
// The tokenizer
// ---------------------------------------------------------------------------

/// `CoreBPE::encode_ordinary` of `tiktoken_rs::cl100k_base_singleton`. The tokens are
/// named and nothing more is claimed of them. Its words are matched by `fancy_regex`,
/// which compiles every repetition of the pattern, of letters as of white space, for an
/// engine that keeps one entry of a stack of a million for each character of a word, and
/// `encode_ordinary` panics when the stack is full: a text with so long a stretch is
/// left out.
#[verifier::external_body]
pub(crate) fn encode(content: &str) -> (tokens: Vec<u32>)
    requires
        tokenizable(content@),
    ensures
        tokens@ == cl100k_tokens(content@),
{
    tiktoken_rs::cl100k_base_singleton().encode_ordinary(content)
}

/// `CoreBPE::_decode_native_and_split` of `tiktoken_rs::cl100k_base_singleton`, joined.
/// The bytes are named and nothing more is claimed of them. It panics on a token that
/// the encoding does not have: only tokens that some text gave are admitted.
#[verifier::external_body]
pub(crate) fn decode(tokens: &Vec<u32>) -> (bytes: Vec<u8>)
    requires
        exists|s: Seq<char>| tokens@.is_prefix_of(#[trigger] cl100k_tokens(s)),
    ensures
        bytes@ == cl100k_bytes(tokens@),
{
    tiktoken_rs::cl100k_base_singleton()._decode_native_and_split(tokens.clone()).flatten().collect()
}

// ---------------------------------------------------------------------------
// Slices
// ---------------------------------------------------------------------------

/// How many characters of `s`, from `i` on, are whole within `bytes` bytes of UTF-8.
pub open spec fn fitting(s: Seq<char>, i: int, bytes: int) -> int
    decreases s.len() - i,
{
    if i < 0 || i >= s.len() || patterns::byte_width(s[i]) > bytes {
        0
    } else {
        1 + fitting(s, i + 1, bytes - patterns::byte_width(s[i]))
    }
}

proof fn lemma_fitting(s: Seq<char>, i: int, bytes: int)
    requires
        0 <= i <= s.len(),
    ensures
        0 <= fitting(s, i, bytes) <= s.len() - i,
    decreases s.len() - i,
{
    if i < s.len() && patterns::byte_width(s[i]) <= bytes {
        lemma_fitting(s, i + 1, bytes - patterns::byte_width(s[i]));
    }
}

/// How many characters of `s` the next slice takes, where its tokens up to the limit
/// stand for `bytes` bytes: whole characters, and at least one.
pub open spec fn cut(s: Seq<char>, bytes: int) -> int {
    if fitting(s, 0, bytes) == 0 {
        1
    } else {
        fitting(s, 0, bytes)
    }
}

/// How many characters of `remaining` the next slice takes.
pub fn cut_length(remaining: &str, bytes: usize) -> (n: usize)
    requires
        remaining@.len() > 0,
    ensures
        n == cut(remaining@, bytes as int),
        0 < n <= remaining@.len(),
{
    let chars: Vec<char> = text::chars_of(remaining);
    let ghost s = remaining@;
    let mut left: usize = bytes;
    let mut n: usize = 0;
    proof {
        lemma_fitting(s, 0, bytes as int);
    }
    while n < chars.len()
        invariant
            n <= chars.len(),
            chars@ == s,
            s == remaining@,
            s.len() > 0,
            n + fitting(s, n as int, left as int) == fitting(s, 0, bytes as int),
        decreases chars.len() - n,
    {
        let width: usize = width_of(chars[n]);
        if width > left {
            if n == 0 {
                return 1;
            }
            return n;
        }
        left = left - width;
        n = n + 1;
    }
    n
}

pub(crate) fn width_of(c: char) -> (width: usize)
    ensures
        width == patterns::byte_width(c),
        width >= 1,
{
    let code: u32 = c as u32;
    proof {
        utf16::lemma_scalar(c);
    }
    if code < 0x80 {
        1
    } else if code < 0x800 {
        2
    } else if code < 0x1_0000 {
        3
    } else {
        4
    }
}

/// The slices of a text: each holds whole characters and stands for at most `limit`
/// tokens of what was left, or for one character.
pub open spec fn slices(s: Seq<char>, limit: int) -> Seq<Seq<char>>
    decreases s.len(),
{
    let tokens = cl100k_tokens(s);
    let n = cut(s, cl100k_bytes(tokens.take(limit)).len() as int);
    if s.len() == 0 {
        Seq::empty()
    } else if tokens.len() <= limit || n <= 0 || n > s.len() {
        seq![s]
    } else {
        seq![s.take(n)] + slices(s.subrange(n, s.len() as int), limit)
    }
}

/// The token limit was zero.
#[derive(Debug, Clone, Copy, PartialEq, Eq, Structural)]
pub struct ZeroTokenLimit;

impl ZeroTokenLimit {
    pub fn message(self) -> (out: &'static str)
        ensures
            out@ == "token limit must be greater than zero"@,
    {
        "token limit must be greater than zero"
    }
}

/// `content` in slices of at most `limit` tokens; an empty text is one empty slice.
pub fn split_content_by_token_limit(content: &str, limit: usize) -> (r: Result<
    Vec<String>,
    ZeroTokenLimit,
>)
    requires
        tokenizable(content@),
    ensures
        match r {
            Err(_) => limit == 0,
            Ok(out) => limit > 0 && text::texts(out@) == if content@.len() == 0 {
                seq![Seq::<char>::empty()]
            } else {
                slices(content@, limit as int)
            },
        },
{
    if limit == 0 {
        return Err(ZeroTokenLimit);
    }
    let mut out: Vec<String> = Vec::new();
    if content.unicode_len() == 0 {
        out.push(String::new());
        assert(text::texts(out@) =~= seq![Seq::<char>::empty()]);
        return Ok(out);
    }
    let mut remaining: String = content.to_owned();
    assert(text::texts(out@) + slices(content@, limit as int) =~= slices(content@, limit as int));
    while remaining.as_str().unicode_len() > 0
        invariant
            limit > 0,
            content@.len() > 0,
            tokenizable(remaining@),
            text::texts(out@) + slices(remaining@, limit as int) == slices(
                content@,
                limit as int,
            ),
        decreases remaining@.len(),
    {
        let ghost before = text::texts(out@);
        let ghost rest = slices(remaining@, limit as int);
        let tokens: Vec<u32> = encode(remaining.as_str());
        if tokens.len() <= limit {
            out.push(remaining);
            assert(text::texts(out@) =~= before + rest);
            return Ok(out);
        }
        let first: Vec<u32> = front(&tokens, limit);
        let bytes: Vec<u8> = decode(&first);
        let n: usize = cut_length(remaining.as_str(), bytes.len());
        let slice: String = text::prefix_to(remaining.as_str(), n);
        assert(slice@ =~= remaining@.take(n as int));
        proof {
            lemma_tokenizable_suffix(remaining@, n as int);
        }
        remaining = text::suffix_from(remaining.as_str(), n);
        out.push(slice);
        assert(text::texts(out@) =~= before.push(slice@));
        assert(text::texts(out@) + slices(remaining@, limit as int) =~= before + rest);
    }
    assert(slices(remaining@, limit as int) =~= Seq::<Seq<char>>::empty());
    assert(text::texts(out@) =~= slices(content@, limit as int));
    Ok(out)
}

fn front(tokens: &Vec<u32>, count: usize) -> (out: Vec<u32>)
    requires
        count <= tokens.len(),
    ensures
        out@ == tokens@.take(count as int),
        out@.is_prefix_of(tokens@),
{
    let mut out: Vec<u32> = Vec::new();
    let mut i: usize = 0;
    while i < count
        invariant
            i <= count <= tokens.len(),
            out@ == tokens@.take(i as int),
        decreases count - i,
    {
        out.push(tokens[i]);
        i = i + 1;
        assert(out@ =~= tokens@.take(i as int));
    }
    out
}

/// The slices of a text are not empty and make it up again.
pub proof fn lemma_slices_keep_text(s: Seq<char>, limit: int)
    ensures
        text::join_spec(slices(s, limit), Seq::empty()) == s,
        forall|k: int| 0 <= k < slices(s, limit).len()
            ==> (#[trigger] slices(s, limit)[k]).len() > 0,
    decreases s.len(),
{
    let tokens = cl100k_tokens(s);
    let n = cut(s, cl100k_bytes(tokens.take(limit)).len() as int);
    let all = slices(s, limit);
    if s.len() == 0 {
        assert(text::join_spec(all, Seq::empty()) =~= s);
    } else if tokens.len() <= limit || n <= 0 || n > s.len() {
        assert(text::join_spec(all, Seq::empty()) =~= s);
    } else {
        let tail = s.subrange(n, s.len() as int);
        let rest = slices(tail, limit);
        lemma_slices_keep_text(tail, limit);
        assert forall|k: int| 0 <= k < all.len() implies (#[trigger] all[k]).len() > 0 by {
            if k > 0 {
                assert(all[k] == rest[k - 1]);
            }
        }
        lemma_join_front(s.take(n), rest);
        assert(s.take(n) + tail =~= s);
    }
}

proof fn lemma_join_front(first: Seq<char>, rest: Seq<Seq<char>>)
    ensures
        text::join_spec(seq![first] + rest, Seq::empty()) == first + text::join_spec(
            rest,
            Seq::empty(),
        ),
    decreases rest.len(),
{
    let none = Seq::<char>::empty();
    let all = seq![first] + rest;
    if rest.len() == 0 {
        assert(all =~= seq![first]);
        assert(text::join_spec(all, none) =~= first + text::join_spec(rest, none));
    } else {
        assert(all.drop_last() =~= seq![first] + rest.drop_last());
        assert(all.drop_first() =~= rest);
        lemma_join_front(first, rest.drop_last());
        assert(text::join_spec(all, none) =~= first + text::join_spec(rest, none));
    }
}

} // verus!
