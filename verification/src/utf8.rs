//! The text of bytes that may not be valid UTF-8.

use vstd::prelude::*;
use vstd::utf8::*;

verus! {

// ---------------------------------------------------------------------------
// One replacement for every byte
// ---------------------------------------------------------------------------

/// The text of bytes: every byte that starts no scalar value reads as `U+FFFD`.
pub open spec fn text_of_bytes(bytes: Seq<u8>) -> Seq<char>
    decreases bytes.len(),
{
    if bytes.len() == 0 {
        Seq::empty()
    } else if valid_first_scalar(bytes) {
        seq![decode_first_scalar(bytes) as char] + text_of_bytes(
            bytes.skip(length_of_first_scalar(bytes)),
        )
    } else {
        seq!['\u{fffd}'] + text_of_bytes(bytes.skip(1))
    }
}

/// The scalar value at `at`, if one starts there, and how many bytes it takes.
fn scalar_at(bytes: &[u8], at: usize) -> (r: Option<(char, usize)>)
    requires
        at < bytes@.len(),
    ensures
        match r {
            Some((c, width)) => {
                let rest = bytes@.skip(at as int);
                &&& valid_first_scalar(rest)
                &&& c == decode_first_scalar(rest) as char
                &&& width == length_of_first_scalar(rest)
                &&& 1 <= width <= bytes@.len() - at
            },
            None => !valid_first_scalar(bytes@.skip(at as int)),
        },
{
    let ghost rest = bytes@.skip(at as int);
    let left: usize = bytes.len() - at;
    let b1: u8 = bytes[at];
    assert(rest[0] == b1);
    let code: u32;
    let width: usize;
    if b1 <= 0x7f {
        code = (b1 & 0x7F) as u32;
        width = 1;
        assert(code == codepoint_width_1(b1));
        assert((b1 & 0x7F) as u32 <= 0x7f) by (bit_vector);
    } else if 0xc0 <= b1 && b1 <= 0xdf {
        if left < 2 || bytes[at + 1] < 0x80 || bytes[at + 1] > 0xbf {
            return None;
        }
        let b2: u8 = bytes[at + 1];
        assert(rest[1] == b2);
        code = (((b1 & 0x1F) as u32) << 6u32) | (b2 & 0x3f) as u32;
        width = 2;
        assert(code == codepoint_width_2(b1, b2));
        assert((((b1 & 0x1F) as u32) << 6u32) | ((b2 & 0x3f) as u32) <= 0x7ff) by (bit_vector);
        if code < 0x80 {
            return None;
        }
    } else if 0xe0 <= b1 && b1 <= 0xef {
        if left < 3 || bytes[at + 1] < 0x80 || bytes[at + 1] > 0xbf || bytes[at + 2] < 0x80
            || bytes[at + 2] > 0xbf {
            return None;
        }
        let b2: u8 = bytes[at + 1];
        let b3: u8 = bytes[at + 2];
        assert(rest[1] == b2 && rest[2] == b3);
        code = (((b1 & 0x0F) as u32) << 12u32) | (((b2 & 0x3f) as u32) << 6u32) | (b3
            & 0x3f) as u32;
        width = 3;
        assert(code == codepoint_width_3(b1, b2, b3));
        assert((((b1 & 0x0F) as u32) << 12u32) | (((b2 & 0x3f) as u32) << 6u32) | ((b3
            & 0x3f) as u32) <= 0xffff) by (bit_vector);
        if code < 0x800 || (0xD800 <= code && code <= 0xDFFF) {
            return None;
        }
    } else if 0xf0 <= b1 && b1 <= 0xf7 {
        if left < 4 || bytes[at + 1] < 0x80 || bytes[at + 1] > 0xbf || bytes[at + 2] < 0x80
            || bytes[at + 2] > 0xbf || bytes[at + 3] < 0x80 || bytes[at + 3] > 0xbf {
            return None;
        }
        let b2: u8 = bytes[at + 1];
        let b3: u8 = bytes[at + 2];
        let b4: u8 = bytes[at + 3];
        assert(rest[1] == b2 && rest[2] == b3 && rest[3] == b4);
        code = (((b1 & 0x07) as u32) << 18u32) | (((b2 & 0x3f) as u32) << 12u32) | (((b3
            & 0x3f) as u32) << 6u32) | (b4 & 0x3f) as u32;
        width = 4;
        assert(code == codepoint_width_4(b1, b2, b3, b4));
        if code < 0x10000 || code > 0x10ffff {
            return None;
        }
    } else {
        return None;
    }
    match char::from_u32(code) {
        Some(c) => {
            proof {
                crate::utf16::lemma_scalar(c);
            }
            assert(c == code as char);
            Some((c, width))
        },
        None => None,
    }
}

/// The text of `bytes`; every byte that starts no scalar value reads as `U+FFFD`.
pub fn text_from_bytes(bytes: &[u8]) -> (out: String)
    ensures
        out@ == text_of_bytes(bytes@),
{
    let mut out: String = String::new();
    let mut at: usize = 0;
    assert(bytes@.skip(0) =~= bytes@);
    while at < bytes.len()
        invariant
            at <= bytes.len(),
            out@ + text_of_bytes(bytes@.skip(at as int)) == text_of_bytes(bytes@),
        decreases bytes.len() - at,
    {
        let ghost before = out@;
        let ghost rest = bytes@.skip(at as int);
        match scalar_at(bytes, at) {
            Some((c, width)) => {
                out.push(c);
                assert(rest.skip(width as int) =~= bytes@.skip(at + width));
                at = at + width;
            },
            None => {
                out.push('\u{fffd}');
                assert(rest.skip(1) =~= bytes@.skip(at + 1));
                at = at + 1;
            },
        }
        assert(out@ + text_of_bytes(bytes@.skip(at as int)) =~= before + text_of_bytes(rest));
    }
    assert(out@ + text_of_bytes(bytes@.skip(at as int)) =~= out@);
    out
}

/// Valid UTF-8 reads as the text it encodes.
pub proof fn lemma_valid_text(bytes: Seq<u8>)
    requires
        valid_utf8(bytes),
    ensures
        text_of_bytes(bytes) == decode_utf8(bytes),
    decreases bytes.len(),
{
    if bytes.len() > 0 {
        let rest = bytes.skip(length_of_first_scalar(bytes));
        assert(rest =~= pop_first_scalar(bytes));
        lemma_valid_text(rest);
    }
}

/// The bytes of a text read as that text.
pub proof fn lemma_text_reads_back(s: Seq<char>)
    ensures
        text_of_bytes(encode_utf8(s)) == s,
{
    vstd::utf8::encode_utf8_valid_utf8(s);
    vstd::utf8::encode_utf8_decode_utf8(s);
    lemma_valid_text(encode_utf8(s));
}

// ---------------------------------------------------------------------------
// One replacement for every malformed run
// ---------------------------------------------------------------------------

/// What `String::from_utf8_lossy` reads.
pub uninterp spec fn lossy_text(bytes: Seq<u8>) -> Seq<char>;

/// `String::from_utf8_lossy`: valid UTF-8 reads as the text it encodes, and a malformed
/// run, of one byte or more, as one replacement character, which takes three. Of other
/// bytes it is said only that the text depends on them alone.
#[verifier::external_body]
pub(crate) fn from_utf8_lossy(bytes: &[u8]) -> (out: String)
    ensures
        out@ == lossy_text(bytes@),
        valid_utf8(bytes@) ==> out@ == decode_utf8(bytes@),
        encode_utf8(out@).len() <= 3 * bytes@.len(),
{
    String::from_utf8_lossy(bytes).into_owned()
}

} // verus!
