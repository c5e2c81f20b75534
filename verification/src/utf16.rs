//! UTF-16 accounting: the code units of a text, and the text of code units.

use vstd::prelude::*;

use crate::text::chars_of;

verus! {

/// `char::from_u32` gives the scalar value with a code point, and nothing for a
/// surrogate or a number past `U+10FFFF`.
pub assume_specification[ char::from_u32 ](code_point: u32) -> (scalar: Option<char>)
    ensures
        match scalar {
            Some(c) => c as u32 == code_point,
            None => code_point > 0x10_FFFF || 0xD800 <= code_point <= 0xDFFF,
        },
;

/// A scalar value is a code point outside the surrogate range.
pub proof fn lemma_scalar(c: char)
    ensures
        0 <= c as int <= 0x10_FFFF,
        !(0xD800 <= c as int <= 0xDFFF),
        c as u32 == c as int,
        (c as int) as char == c,
{
}

// ---------------------------------------------------------------------------
// Counting
// ---------------------------------------------------------------------------

/// How many code units one scalar value takes.
pub open spec fn char_weight(c: char) -> nat {
    if (c as u32) < 0x1_0000 {
        1
    } else {
        2
    }
}

/// How many code units a text takes.
pub open spec fn units(s: Seq<char>) -> nat
    decreases s.len(),
{
    if s.len() == 0 {
        0
    } else {
        units(s.drop_last()) + char_weight(s.last())
    }
}

pub proof fn lemma_units_add(a: Seq<char>, b: Seq<char>)
    ensures
        units(a + b) == units(a) + units(b),
    decreases b.len(),
{
    if b.len() == 0 {
        assert(a + b =~= a);
    } else {
        assert((a + b).drop_last() =~= a + b.drop_last());
        lemma_units_add(a, b.drop_last());
    }
}

pub proof fn lemma_units_bounds(s: Seq<char>)
    ensures
        s.len() <= units(s) <= 2 * s.len(),
    decreases s.len(),
{
    if s.len() > 0 {
        lemma_units_bounds(s.drop_last());
    }
}

/// A run of a text takes no more code units than the text.
pub proof fn lemma_units_subrange(s: Seq<char>, from: int, to: int)
    requires
        0 <= from <= to <= s.len(),
    ensures
        units(s.subrange(from, to)) <= units(s),
        units(s.subrange(0, from)) + units(s.subrange(from, s.len() as int)) == units(s),
{
    let a = s.subrange(0, from);
    let b = s.subrange(from, to);
    let c = s.subrange(to, s.len() as int);
    assert(s =~= a + b + c);
    lemma_units_add(a + b, c);
    lemma_units_add(a, b);
    assert(s =~= a + s.subrange(from, s.len() as int));
    lemma_units_add(a, s.subrange(from, s.len() as int));
}

pub fn weight(c: char) -> (n: usize)
    ensures
        n == char_weight(c),
{
    if (c as u32) < 0x1_0000 {
        1
    } else {
        2
    }
}

/// How many UTF-16 code units `text` takes.
pub fn count_units(text: &str) -> (n: u128)
    ensures
        n == units(text@),
{
    let chars: Vec<char> = chars_of(text);
    let mut n: u128 = 0;
    let mut i: usize = 0;
    while i < chars.len()
        invariant
            i <= chars.len(),
            chars@ == text@,
            n == units(text@.take(i as int)),
            n <= 2 * i,
        decreases chars.len() - i,
    {
        proof {
            assert(text@.take(i + 1).drop_last() =~= text@.take(i as int));
        }
        n = n + weight(chars[i]) as u128;
        i = i + 1;
    }
    assert(text@.take(i as int) =~= text@);
    n
}

// ---------------------------------------------------------------------------
// Encoding and decoding
// ---------------------------------------------------------------------------

/// The code units of one scalar value: one, or a surrogate pair.
pub open spec fn char_units(c: char) -> Seq<u16> {
    let n = c as int;
    if n < 0x1_0000 {
        seq![n as u16]
    } else {
        seq![
            (0xD800 + (n - 0x1_0000) / 0x400) as u16,
            (0xDC00 + (n - 0x1_0000) % 0x400) as u16,
        ]
    }
}

/// The code units of `s` from position `i` on.
pub open spec fn encoded_from(s: Seq<char>, i: int) -> Seq<u16>
    decreases s.len() - i,
{
    if i < 0 || i >= s.len() {
        Seq::empty()
    } else {
        char_units(s[i]) + encoded_from(s, i + 1)
    }
}

/// The code units of a text.
pub open spec fn encoded(s: Seq<char>) -> Seq<u16> {
    encoded_from(s, 0)
}

pub open spec fn is_high_surrogate(u: u16) -> bool {
    0xD800 <= u < 0xDC00
}

pub open spec fn is_low_surrogate(u: u16) -> bool {
    0xDC00 <= u < 0xE000
}

/// The scalar value of a surrogate pair.
pub open spec fn pair_char(high: u16, low: u16) -> char {
    (0x1_0000 + (high - 0xD800) * 0x400 + (low - 0xDC00)) as char
}

/// The text of the code units from `i` on: an unpaired surrogate reads as `U+FFFD`.
pub open spec fn decoded_from(u: Seq<u16>, i: int) -> Seq<char>
    decreases u.len() - i,
{
    if i < 0 || i >= u.len() {
        Seq::empty()
    } else if !is_high_surrogate(u[i]) && !is_low_surrogate(u[i]) {
        seq![u[i] as char] + decoded_from(u, i + 1)
    } else if is_high_surrogate(u[i]) && i + 1 < u.len() && is_low_surrogate(u[i + 1]) {
        seq![pair_char(u[i], u[i + 1])] + decoded_from(u, i + 2)
    } else {
        seq!['\u{fffd}'] + decoded_from(u, i + 1)
    }
}

/// The text of code units.
pub open spec fn decoded(u: Seq<u16>) -> Seq<char> {
    decoded_from(u, 0)
}

/// The UTF-16 code units of `text`.
pub fn encode(text: &str) -> (out: Vec<u16>)
    ensures
        out@ == encoded(text@),
{
    let chars: Vec<char> = chars_of(text);
    let mut out: Vec<u16> = Vec::new();
    let mut i: usize = 0;
    while i < chars.len()
        invariant
            i <= chars.len(),
            chars@ == text@,
            out@ + encoded_from(text@, i as int) == encoded(text@),
        decreases chars.len() - i,
    {
        let ghost before = out@;
        let c: char = chars[i];
        proof {
            lemma_scalar(c);
        }
        let n: u32 = c as u32;
        if n < 0x1_0000 {
            out.push(n as u16);
        } else {
            out.push((0xD800 + (n - 0x1_0000) / 0x400) as u16);
            out.push((0xDC00 + (n - 0x1_0000) % 0x400) as u16);
        }
        assert(out@ =~= before + char_units(text@[i as int]));
        i = i + 1;
        assert(out@ + encoded_from(text@, i as int) =~= before + encoded_from(text@, i - 1));
    }
    assert(out@ + encoded_from(text@, i as int) =~= out@);
    out
}

/// The text of `units[from..to]`; an unpaired surrogate reads as `U+FFFD`.
pub fn decode(units: &[u16], from: usize, to: usize) -> (out: String)
    requires
        from <= to <= units@.len(),
    ensures
        out@ == decoded(units@.subrange(from as int, to as int)),
{
    let ghost slice = units@.subrange(from as int, to as int);
    let mut out: String = String::new();
    let mut i: usize = from;
    while i < to
        invariant
            from <= i <= to <= units.len(),
            slice == units@.subrange(from as int, to as int),
            out@ + decoded_from(slice, i - from) == decoded(slice),
        decreases to - i,
    {
        let ghost before = out@;
        let ghost at = i - from;
        let u: u16 = units[i];
        assert(slice[at] == u);
        if u < 0xD800 || u >= 0xE000 {
            match char::from_u32(u as u32) {
                Some(c) => {
                    out.push(c);
                    proof {
                        lemma_scalar(c);
                    }
                    assert(c == slice[at] as char);
                },
                None => {
                    assert(false);
                },
            }
            i = i + 1;
            assert(out@ + decoded_from(slice, at + 1) =~= before + decoded_from(slice, at));
        } else if u < 0xDC00 && i + 1 < to && 0xDC00 <= units[i + 1] && units[i + 1] < 0xE000 {
            let v: u16 = units[i + 1];
            assert(slice[at + 1] == v);
            let n: u32 = 0x1_0000 + (u as u32 - 0xD800) * 0x400 + (v as u32 - 0xDC00);
            match char::from_u32(n) {
                Some(c) => {
                    out.push(c);
                    proof {
                        lemma_scalar(c);
                    }
                    assert(c == pair_char(u, v));
                },
                None => {
                    assert(false);
                },
            }
            i = i + 2;
            assert(out@ + decoded_from(slice, at + 2) =~= before + decoded_from(slice, at));
        } else {
            out.push('\u{fffd}');
            i = i + 1;
            assert(out@ + decoded_from(slice, at + 1) =~= before + decoded_from(slice, at));
        }
    }
    assert(out@ + decoded_from(slice, i - from) =~= out@);
    out
}

proof fn lemma_decode_encoded_at(s: Seq<char>, u: Seq<u16>, i: int, at: int)
    requires
        0 <= i <= s.len(),
        0 <= at <= u.len(),
        u.subrange(at, u.len() as int) == encoded_from(s, i),
    ensures
        decoded_from(u, at) == s.subrange(i, s.len() as int),
    decreases s.len() - i,
{
    let tail = u.subrange(at, u.len() as int);
    if i == s.len() {
        assert(tail.len() == 0);
        assert(s.subrange(i, s.len() as int) =~= Seq::<char>::empty());
    } else {
        let c = s[i];
        lemma_scalar(c);
        let width = char_units(c).len();
        let rest = encoded_from(s, i + 1);
        assert(tail == char_units(c) + rest);
        assert(tail[0] == char_units(c)[0]);
        assert(u[at] == tail[0]);
        if width == 2 {
            assert(tail[1] == char_units(c)[1]);
            assert(u[at + 1] == tail[1]);
        }
        assert(u.subrange(at + width, u.len() as int) =~= rest) by {
            assert forall|k: int| 0 <= k < rest.len() implies u[at + width + k]
                == #[trigger] rest[k] by {
                assert(tail[width + k] == rest[k]);
            }
        }
        lemma_decode_encoded_at(s, u, i + 1, at + width);
        assert(s.subrange(i, s.len() as int) =~= seq![c] + s.subrange(i + 1, s.len() as int));
    }
}

/// Decoding what was encoded gives the text back.
pub proof fn lemma_decode_encoded(s: Seq<char>)
    ensures
        decoded(encoded(s)) == s,
{
    let u = encoded(s);
    assert(u.subrange(0, u.len() as int) =~= u);
    lemma_decode_encoded_at(s, u, 0, 0);
    assert(s.subrange(0, s.len() as int) =~= s);
}

} // verus!
