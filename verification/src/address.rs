//! Addresses that are rewritten.

use vstd::prelude::*;
use vstd::utf8::*;

use crate::services::patterns;
use crate::services::tokens;
use crate::text;

verus! {

/// What `url::Url::parse` and `Url::as_str` make of an address.
pub uninterp spec fn url_serialized(url: Seq<char>) -> Option<Seq<char>>;

/// `url::Url::parse`, then `Url::as_str` of what it gives: none where parsing fails. The
/// result is named and nothing more is claimed.
#[verifier::external_body]
pub(crate) fn serialize_url(url: &str) -> (r: Option<String>)
    ensures
        text::viewed(r) == url_serialized(url@),
{
    match url::Url::parse(url) {
        Ok(parsed) => Some(parsed.as_str().to_owned()),
        Err(_) => None,
    }
}

// ---------------------------------------------------------------------------
// Room for a path
// ---------------------------------------------------------------------------

/// The positions that `url` can keep of an address: it panics where rewriting one leads
/// beyond them.
pub const LAST_POSITION: u64 = 4_294_967_295;

/// What rewriting adds to a path besides its characters, in bytes: slashes, and one that is
/// escaped.
pub const SLASHES: u64 = 8;

/// Whether a path holds a character as it is.
pub open spec fn unescaped(c: char) -> bool {
    ||| 'a' <= c <= 'z'
    ||| 'A' <= c <= 'Z'
    ||| '0' <= c <= '9'
    ||| c == ':'
    ||| c == '-'
    ||| c == '_'
}

/// The bytes that a path takes for a character at most: three for each byte of one that is
/// escaped.
pub open spec fn path_width(c: char) -> int {
    if unescaped(c) {
        1
    } else {
        3 * patterns::byte_width(c)
    }
}

/// The bytes that a path takes for a text at most, from `i` on.
pub open spec fn path_size(s: Seq<char>, i: int) -> int
    decreases s.len() - i,
{
    if i < 0 || i >= s.len() {
        0
    } else {
        path_width(s[i]) + path_size(s, i + 1)
    }
}

proof fn lemma_path_size(s: Seq<char>, i: int)
    ensures
        path_size(s, i) >= 0,
    decreases s.len() - i,
{
    if 0 <= i < s.len() {
        lemma_path_size(s, i + 1);
    }
}

/// Whether an address that reads as `serialized` has room for two more texts in its path.
pub open spec fn roomy(serialized: Option<Seq<char>>, first: Seq<char>, second: Seq<char>) -> bool {
    match serialized {
        Some(url) => encode_utf8(url).len() + path_size(first, 0) + path_size(second, 0) + SLASHES
            <= LAST_POSITION,
        None => true,
    }
}

/// What is left of `room` once a path has taken up a text; none where it has no room.
fn room_after(room: u64, part: &str) -> (r: Option<u64>)
    ensures
        match r {
            Some(left) => left == room - path_size(part@, 0),
            None => path_size(part@, 0) > room,
        },
{
    let chars: Vec<char> = text::chars_of(part);
    let ghost s = part@;
    let mut left: u64 = room;
    let mut i: usize = 0;
    while i < chars.len()
        invariant
            i <= chars.len(),
            chars@ == s,
            s == part@,
            left <= room,
            room - left + path_size(s, i as int) == path_size(s, 0),
        decreases chars.len() - i,
    {
        let c: char = chars[i];
        let plain: bool = ('a' <= c && c <= 'z') || ('A' <= c && c <= 'Z') || ('0' <= c && c <= '9')
            || c == ':' || c == '-' || c == '_';
        let bytes: usize = tokens::width_of(c);
        let width: u64 = if plain {
            1
        } else {
            3 * bytes as u64
        };
        proof {
            lemma_path_size(s, i + 1);
        }
        if width > left {
            return None;
        }
        left = left - width;
        i = i + 1;
    }
    Some(left)
}

/// Whether an address that reads as `serialized` has room for two more texts in its path.
pub fn has_room(serialized: &Option<String>, first: &str, second: &str) -> (r: bool)
    ensures
        r == roomy(text::viewed(*serialized), first@, second@),
{
    proof {
        lemma_path_size(first@, 0);
        lemma_path_size(second@, 0);
    }
    match serialized {
        Some(url) => {
            let taken: usize = url.as_str().as_bytes().len();
            if taken as u64 > LAST_POSITION - SLASHES {
                return false;
            }
            match room_after(LAST_POSITION - SLASHES - taken as u64, first) {
                Some(room) => match room_after(room, second) {
                    Some(_) => true,
                    None => false,
                },
                None => false,
            }
        },
        None => true,
    }
}

} // verus!
