//! JSON that is read as records of one field: an object that names the field, or an array
//! of its one value.
//!
//! `serde_json` says what is JSON and what its texts and numbers mean. Where one part ends
//! and the next begins is found here.

use vstd::prelude::*;

use crate::numeral;
use crate::text;

verus! {

// ---------------------------------------------------------------------------
// What JSON means
// ---------------------------------------------------------------------------

/// Whether `serde_json` takes some bytes for one JSON value.
pub uninterp spec fn is_json(bytes: Seq<u8>) -> bool;

/// The text that `serde_json` reads from some bytes, where they are a JSON string.
pub uninterp spec fn json_text(bytes: Seq<u8>) -> Option<Seq<char>>;

/// The number that `serde_json` reads from some bytes, where they are a JSON integer of 64
/// bits.
pub uninterp spec fn json_number(bytes: Seq<u8>) -> Option<i64>;

/// The bytes of an ASCII text.
pub open spec fn ascii_bytes(s: Seq<char>) -> Seq<u8> {
    Seq::new(s.len(), |i: int| s[i] as u8)
}

/// A key that JSON writes as it is.
pub open spec fn plain_key(key: Seq<char>) -> bool {
    forall|i: int| 0 <= i < key.len() ==> 'a' <= #[trigger] key[i] <= 'z' || key[i] == '_'
}

/// The JSON string of a plain key.
pub open spec fn quoted(key: Seq<char>) -> Seq<char> {
    "\""@ + key + "\""@
}

/// The compact JSON of a number under a key of an object under another key.
pub open spec fn nested(outer: Seq<char>, inner: Seq<char>, number: int) -> Seq<char> {
    "{"@ + quoted(outer) + ":"@ + ("{"@ + quoted(inner) + ":"@ + numeral::decimal(number) + "}"@)
        + "}"@
}

/// `serde_json::from_slice` as a `serde::de::IgnoredAny`, which reads a value as the parser
/// reads one that nobody asks for: whether it succeeds is named. The compact JSON of nested
/// objects with plain keys is JSON.
#[verifier::external_body]
fn holds_json(bytes: &Vec<u8>) -> (r: bool)
    ensures
        r == is_json(bytes@),
        forall|outer: Seq<char>, inner: Seq<char>, number: i64|
            plain_key(outer) && plain_key(inner) && bytes@ == #[trigger] ascii_bytes(
                nested(outer, inner, number as int),
            ) ==> r,
{
    serde_json::from_slice::<serde::de::IgnoredAny>(bytes).is_ok()
}

/// `serde_json::from_slice` as a `String`: the text is named, none where the bytes are no
/// JSON string. A plain key is read back.
#[verifier::external_body]
fn read_text(bytes: &Vec<u8>) -> (r: Option<String>)
    ensures
        text::viewed(r) == json_text(bytes@),
        forall|key: Seq<char>|
            plain_key(key) && bytes@ == #[trigger] ascii_bytes(quoted(key)) ==> text::viewed(r)
                == Some(key),
{
    serde_json::from_slice::<String>(bytes).ok()
}

/// `serde_json::from_slice` as an `i64`: the number is named, none where the bytes are no
/// JSON integer of 64 bits. A decimal number is read back.
#[verifier::external_body]
fn read_number(bytes: &Vec<u8>) -> (r: Option<i64>)
    ensures
        r == json_number(bytes@),
        forall|number: i64|
            bytes@ == #[trigger] ascii_bytes(numeral::decimal(number as int)) ==> r == Some(number),
{
    serde_json::from_slice::<i64>(bytes).ok()
}

// ---------------------------------------------------------------------------
// Parts
// ---------------------------------------------------------------------------

pub open spec fn opens(b: u8) -> bool {
    b == 0x5b || b == 0x7b
}

pub open spec fn closes(b: u8) -> bool {
    b == 0x5d || b == 0x7d
}

pub open spec fn separates(b: u8) -> bool {
    b == 0x2c || b == 0x3a
}

pub open spec fn is_space(b: u8) -> bool {
    b == 0x20 || b == 0x9 || b == 0xa || b == 0xd
}

/// The first place from `i` on that is no white space.
pub open spec fn past_space(b: Seq<u8>, i: int) -> int
    decreases b.len() - i,
{
    if 0 <= i < b.len() && is_space(b[i]) {
        past_space(b, i + 1)
    } else {
        i
    }
}

/// The place behind the quote that ends a string, where `i` lies within the string. A
/// backslash takes the next byte along.
pub open spec fn past_string(b: Seq<u8>, i: int) -> int
    decreases b.len() - i,
{
    if i < 0 || i >= b.len() {
        b.len() as int
    } else if b[i] == 0x22 {
        i + 1
    } else if b[i] == 0x5c {
        if i + 1 < b.len() {
            past_string(b, i + 2)
        } else {
            b.len() as int
        }
    } else {
        past_string(b, i + 1)
    }
}

proof fn lemma_past_string(b: Seq<u8>, i: int)
    requires
        0 <= i <= b.len(),
    ensures
        i < b.len() ==> i < past_string(b, i),
        i <= past_string(b, i) <= b.len(),
    decreases b.len() - i,
{
    if i < b.len() && b[i] != 0x22 {
        if b[i] == 0x5c {
            if i + 2 <= b.len() {
                lemma_past_string(b, i + 2);
            }
        } else {
            lemma_past_string(b, i + 1);
        }
    }
}

/// Where the part that goes on at `i`, within so many brackets of its own, ends: before a
/// comma, a colon or a closing bracket that stands in no string and in none of them.
pub open spec fn part_end(b: Seq<u8>, i: int, depth: nat) -> int
    decreases b.len() - i,
{
    if i < 0 || i >= b.len() {
        b.len() as int
    } else if b[i] == 0x22 {
        if i < past_string(b, i + 1) <= b.len() {
            part_end(b, past_string(b, i + 1), depth)
        } else {
            b.len() as int
        }
    } else if opens(b[i]) {
        part_end(b, i + 1, depth + 1)
    } else if depth == 0 && (closes(b[i]) || separates(b[i])) {
        i
    } else if closes(b[i]) {
        part_end(b, i + 1, (depth - 1) as nat)
    } else {
        part_end(b, i + 1, depth)
    }
}

proof fn lemma_part_end(b: Seq<u8>, i: int, depth: nat)
    requires
        0 <= i <= b.len(),
    ensures
        i <= part_end(b, i, depth) <= b.len(),
    decreases b.len() - i,
{
    if i < b.len() {
        if b[i] == 0x22 {
            lemma_past_string(b, i + 1);
            lemma_part_end(b, past_string(b, i + 1), depth);
        } else if opens(b[i]) {
            lemma_part_end(b, i + 1, depth + 1);
        } else if depth == 0 && (closes(b[i]) || separates(b[i])) {
        } else if closes(b[i]) {
            lemma_part_end(b, i + 1, (depth - 1) as nat);
        } else {
            lemma_part_end(b, i + 1, depth);
        }
    }
}

/// The parts from `i` on up to the bracket that closes: the values of an array, or the
/// keys and values of an object in turn. Empty brackets hold one empty part.
pub open spec fn parts(b: Seq<u8>, i: int) -> Seq<Seq<u8>>
    decreases b.len() - i,
{
    let end = part_end(b, i, 0);
    if i < 0 || i > b.len() || end < i || end >= b.len() || !separates(b[end]) {
        seq![b.subrange(i, end)]
    } else {
        seq![b.subrange(i, end)] + parts(b, end + 1)
    }
}

fn skip_space(bytes: &Vec<u8>) -> (at: usize)
    ensures
        at == past_space(bytes@, 0),
        at <= bytes.len(),
{
    let mut i: usize = 0;
    while i < bytes.len() && (bytes[i] == 0x20 || bytes[i] == 0x9 || bytes[i] == 0xa || bytes[i]
        == 0xd)
        invariant
            i <= bytes.len(),
            past_space(bytes@, i as int) == past_space(bytes@, 0),
        decreases bytes.len() - i,
    {
        i = i + 1;
    }
    i
}

fn skip_string(bytes: &Vec<u8>, start: usize) -> (at: usize)
    requires
        start <= bytes.len(),
    ensures
        at == past_string(bytes@, start as int),
        start <= at <= bytes.len(),
{
    proof {
        lemma_past_string(bytes@, start as int);
    }
    let mut i: usize = start;
    while i < bytes.len()
        invariant
            start <= i <= bytes.len(),
            past_string(bytes@, i as int) == past_string(bytes@, start as int),
            start <= past_string(bytes@, start as int) <= bytes.len(),
        decreases bytes.len() - i,
    {
        if bytes[i] == 0x22 {
            return i + 1;
        }
        if bytes[i] == 0x5c {
            if bytes.len() - i < 2 {
                return bytes.len();
            }
            i = i + 2;
        } else {
            i = i + 1;
        }
    }
    i
}

fn end_of_part(bytes: &Vec<u8>, start: usize) -> (at: usize)
    requires
        start <= bytes.len(),
    ensures
        at == part_end(bytes@, start as int, 0),
        start <= at <= bytes.len(),
{
    proof {
        lemma_part_end(bytes@, start as int, 0);
    }
    let mut i: usize = start;
    let mut depth: usize = 0;
    while i < bytes.len()
        invariant
            start <= i <= bytes.len(),
            depth <= i,
            part_end(bytes@, i as int, depth as nat) == part_end(bytes@, start as int, 0),
            start <= part_end(bytes@, start as int, 0) <= bytes.len(),
        decreases bytes.len() - i,
    {
        let b: u8 = bytes[i];
        if b == 0x22 {
            i = skip_string(bytes, i + 1);
        } else if b == 0x5b || b == 0x7b {
            depth = depth + 1;
            i = i + 1;
        } else if b == 0x5d || b == 0x7d {
            if depth == 0 {
                return i;
            }
            depth = depth - 1;
            i = i + 1;
        } else if depth == 0 && (b == 0x2c || b == 0x3a) {
            return i;
        } else {
            i = i + 1;
        }
    }
    i
}

fn copied_part(bytes: &Vec<u8>, start: usize, end: usize) -> (out: Vec<u8>)
    requires
        start <= end <= bytes.len(),
    ensures
        out@ == bytes@.subrange(start as int, end as int),
        start == 0 && end == bytes.len() ==> out@ == bytes@,
{
    let mut out: Vec<u8> = Vec::new();
    let mut i: usize = start;
    while i < end
        invariant
            start <= i <= end <= bytes.len(),
            out@ == bytes@.subrange(start as int, i as int),
        decreases end - i,
    {
        out.push(bytes[i]);
        i = i + 1;
        assert(out@ =~= bytes@.subrange(start as int, i as int));
    }
    assert(bytes@.subrange(0, bytes@.len() as int) =~= bytes@);
    out
}

/// The contents of vectors of bytes.
pub open spec fn bytes_of_parts(found: Seq<Vec<u8>>) -> Seq<Seq<u8>> {
    Seq::new(found.len(), |i: int| found[i]@)
}

fn split_parts(bytes: &Vec<u8>, start: usize) -> (out: Vec<Vec<u8>>)
    requires
        start <= bytes.len(),
    ensures
        bytes_of_parts(out@) == parts(bytes@, start as int),
{
    let mut out: Vec<Vec<u8>> = Vec::new();
    let mut i: usize = start;
    assert(bytes_of_parts(out@) + parts(bytes@, start as int) =~= parts(bytes@, start as int));
    loop
        invariant
            start <= i <= bytes.len(),
            bytes_of_parts(out@) + parts(bytes@, i as int) == parts(bytes@, start as int),
        decreases bytes.len() - i,
    {
        let ghost before = bytes_of_parts(out@);
        let end: usize = end_of_part(bytes, i);
        out.push(copied_part(bytes, i, end));
        assert(bytes_of_parts(out@) =~= before.push(bytes@.subrange(i as int, end as int)));
        if end >= bytes.len() || !(bytes[end] == 0x2c || bytes[end] == 0x3a) {
            assert(bytes_of_parts(out@) =~= before + parts(bytes@, i as int));
            return out;
        }
        assert(bytes_of_parts(out@) + parts(bytes@, end + 1) =~= before + parts(bytes@, i as int));
        i = end + 1;
    }
}

// ---------------------------------------------------------------------------
// Records of one field
// ---------------------------------------------------------------------------

/// Whether the part at `k` is a key that names the field.
pub open spec fn names_field(found: Seq<Seq<u8>>, key: Seq<char>, k: int) -> bool {
    0 <= k < found.len() && k % 2 == 0 && json_text(found[k]) == Some(key)
}

/// Whether the part at `k` is a key that is no text.
pub open spec fn broken_key(found: Seq<Seq<u8>>, k: int) -> bool {
    0 <= k < found.len() && k % 2 == 0 && json_text(found[k]) is None
}

/// Whether an object with these keys and values holds the field once, at `k`: every key is
/// a text, and no other names the field.
pub open spec fn field_at(found: Seq<Seq<u8>>, key: Seq<char>, k: int) -> bool {
    &&& names_field(found, key, k)
    &&& k + 1 < found.len()
    &&& forall|j: int| names_field(found, key, j) ==> j == k
    &&& forall|j: int| !broken_key(found, j)
}

/// The value of the field in a record: in an object the value of the one key that names
/// it, whatever else is there, and in an array the only value.
pub open spec fn field(b: Seq<u8>, key: Seq<char>) -> Option<Seq<u8>> {
    let start = past_space(b, 0);
    if start >= b.len() || !opens(b[start]) {
        None
    } else {
        let found = parts(b, start + 1);
        if b[start] == 0x5b {
            if found.len() == 1 {
                Some(found[0])
            } else {
                None
            }
        } else if exists|k: int| field_at(found, key, k) {
            let k = choose|k: int| field_at(found, key, k);
            Some(found[k + 1])
        } else {
            None
        }
    }
}

/// Whether a record is an object whose first key is written as it is.
pub open spec fn starts_with_key(b: Seq<u8>, key: Seq<char>) -> bool {
    let start = past_space(b, 0);
    start < b.len() && b[start] == 0x7b && parts(b, start + 1)[0] == ascii_bytes(quoted(key))
}

pub open spec fn bytes_model(bytes: Option<Vec<u8>>) -> Option<Seq<u8>> {
    match bytes {
        Some(found) => Some(found@),
        None => None,
    }
}

/// Where an object with these keys and values holds the field, if it does once. A plain key
/// that comes first is read as what it is.
fn find_field(found: &Vec<Vec<u8>>, key: &str) -> (r: Option<usize>)
    requires
        found.len() > 0,
    ensures
        match r {
            Some(at) => field_at(bytes_of_parts(found@), key@, at as int),
            None => forall|k: int| !field_at(bytes_of_parts(found@), key@, k),
        },
        plain_key(key@) && found@[0]@ == ascii_bytes(quoted(key@)) ==> json_text(found@[0]@)
            == Some(key@),
{
    let ghost all = bytes_of_parts(found@);
    let mut named: Option<usize> = None;
    let mut is_key: bool = true;
    let mut k: usize = 0;
    while k < found.len()
        invariant
            k <= found.len(),
            is_key == (k % 2 == 0),
            all == bytes_of_parts(found@),
            match named {
                Some(at) => at < k && names_field(all, key@, at as int),
                None => true,
            },
            forall|j: int| 0 <= j < k && names_field(all, key@, j) ==> named == Some(j as usize),
            forall|j: int| 0 <= j < k ==> !broken_key(all, j),
            k > 0 && plain_key(key@) && found@[0]@ == ascii_bytes(quoted(key@)) ==> json_text(
                found@[0]@,
            ) == Some(key@),
        decreases found.len() - k,
    {
        assert(all[k as int] == found@[k as int]@);
        if is_key {
            let name: Option<String> = read_text(&found[k]);
            match &name {
                None => {
                    assert(broken_key(all, k as int));
                    return None;
                },
                Some(name) => {
                    if text::same(name.as_str(), key) {
                        assert(names_field(all, key@, k as int));
                        match named {
                            Some(at) => {
                                assert(names_field(all, key@, at as int));
                                return None;
                            },
                            None => {
                                named = Some(k);
                            },
                        }
                    }
                },
            }
        }
        is_key = !is_key;
        k = k + 1;
    }
    match named {
        Some(at) => {
            if at < found.len() - 1 {
                assert(field_at(all, key@, at as int));
                Some(at)
            } else {
                assert forall|j: int| !field_at(all, key@, j) by {
                    if field_at(all, key@, j) {
                        assert(names_field(all, key@, at as int));
                    }
                }
                None
            }
        },
        None => None,
    }
}

/// The value of the field in a record. A plain key that comes first is read as what it is.
fn field_of(bytes: &Vec<u8>, key: &str) -> (r: Option<Vec<u8>>)
    ensures
        bytes_model(r) == field(bytes@, key@),
        plain_key(key@) && starts_with_key(bytes@, key@) ==> json_text(ascii_bytes(quoted(key@)))
            == Some(key@),
{
    let start: usize = skip_space(bytes);
    if start >= bytes.len() || !(bytes[start] == 0x5b || bytes[start] == 0x7b) {
        return None;
    }
    let found: Vec<Vec<u8>> = split_parts(bytes, start + 1);
    let ghost all = bytes_of_parts(found@);
    assert(all.len() == found.len());
    assert(all[0] == found@[0]@);
    if bytes[start] == 0x5b {
        if found.len() != 1 {
            return None;
        }
        return Some(copied_part(&found[0], 0, found[0].len()));
    }
    match find_field(&found, key) {
        Some(at) => {
            proof {
                let k = choose|k: int| field_at(all, key@, k);
                assert(field_at(all, key@, k));
                assert(k == at);
                assert(all[at + 1] == found@[at + 1]@);
            }
            Some(copied_part(&found[at + 1], 0, found[at + 1].len()))
        },
        None => None,
    }
}

/// The number under a field of a record under a field of the record that some bytes hold.
pub open spec fn number_in(b: Seq<u8>, outer: Seq<char>, inner: Seq<char>) -> Option<i64> {
    if !is_json(b) {
        None
    } else {
        match field(b, outer) {
            None => None,
            Some(record) => match field(record, inner) {
                None => None,
                Some(number) => json_number(number),
            },
        }
    }
}

/// The object that holds a value under a plain key.
pub open spec fn record(key: Seq<char>, value: Seq<u8>) -> Seq<u8> {
    seq![0x7bu8] + ascii_bytes(quoted(key)) + seq![0x3au8] + value + seq![0x7du8]
}

proof fn lemma_plain_string(b: Seq<u8>, i: int, end: int)
    requires
        0 <= i <= end < b.len(),
        forall|k: int| i <= k < end ==> #[trigger] b[k] != 0x22 && b[k] != 0x5c,
        b[end] == 0x22,
    ensures
        past_string(b, i) == end + 1,
    decreases end - i,
{
    if i < end {
        lemma_plain_string(b, i + 1, end);
    }
}

proof fn lemma_plain_run(b: Seq<u8>, i: int, end: int, depth: nat)
    requires
        0 <= i <= end <= b.len(),
        forall|k: int|
            i <= k < end ==> #[trigger] b[k] != 0x22 && !opens(b[k]) && !closes(b[k])
                && !separates(b[k]),
    ensures
        part_end(b, i, depth) == part_end(b, end, depth),
    decreases end - i,
{
    if i < end {
        lemma_plain_run(b, i + 1, end, depth);
    }
}

/// A key that is written as it is, from its quote at `i` on.
proof fn lemma_key(b: Seq<u8>, key: Seq<char>, i: int, depth: nat)
    requires
        plain_key(key),
        0 <= i,
        i + key.len() + 2 <= b.len(),
        b.subrange(i, i + key.len() + 2) == ascii_bytes(quoted(key)),
    ensures
        part_end(b, i, depth) == part_end(b, i + key.len() + 2, depth),
{
    reveal_strlit("\"");
    let q = quoted(key);
    let s = b.subrange(i, i + key.len() + 2);
    assert(q.len() == key.len() + 2);
    assert(q[0] == '"' && q[q.len() - 1] == '"');
    assert(s[0] == b[i]);
    assert(s[s.len() - 1] == b[i + key.len() + 1]);
    assert forall|k: int| i + 1 <= k < i + key.len() + 1 implies #[trigger] b[k] != 0x22 && b[k]
        != 0x5c by {
        assert(s[k - i] == b[k]);
        assert(q[k - i] == key[k - i - 1]);
    }
    lemma_plain_string(b, i + 1, i + key.len() + 1);
}

/// The parts of an object with one plain key.
proof fn lemma_record(key: Seq<char>, value: Seq<u8>)
    requires
        plain_key(key),
        ({
            let b = record(key, value);
            part_end(b, 4 + key.len() as int, 0) == b.len() - 1
        }),
    ensures
        starts_with_key(record(key, value), key),
        json_text(ascii_bytes(quoted(key))) == Some(key) ==> field(record(key, value), key)
            == Some(value),
{
    let b = record(key, value);
    let n = key.len() as int;
    let q = ascii_bytes(quoted(key));
    lemma_record_shape(key, value);
    assert(past_space(b, 0) == 0);
    lemma_key(b, key, 1, 0);
    assert(part_end(b, n + 3, 0) == n + 3);
    let all = parts(b, 1);
    assert(parts(b, n + 4) =~= seq![value]);
    assert(all =~= seq![q, value]);
    if json_text(q) == Some(key) {
        assert(field_at(all, key, 0));
        let k = choose|k: int| field_at(all, key, k);
        assert(k == 0);
    }
}

proof fn lemma_record_shape(key: Seq<char>, value: Seq<u8>)
    ensures
        ({
            let b = record(key, value);
            let n = key.len() as int;
            &&& b.len() == value.len() + n + 5
            &&& ascii_bytes(quoted(key)).len() == n + 2
            &&& b[0] == 0x7b
            &&& b.subrange(1, n + 3) == ascii_bytes(quoted(key))
            &&& b[n + 3] == 0x3a
            &&& b.subrange(n + 4, b.len() - 1) == value
            &&& b[b.len() - 1] == 0x7d
        }),
{
    reveal_strlit("\"");
    let b = record(key, value);
    let n = key.len() as int;
    assert(ascii_bytes(quoted(key)).len() == n + 2);
    assert(b.subrange(1, n + 3) =~= ascii_bytes(quoted(key)));
    assert(b.subrange(n + 4, b.len() - 1) =~= value);
}

/// The digits of a number end no part.
proof fn lemma_digits(number: int)
    ensures
        ({
            let digits = ascii_bytes(numeral::decimal(number));
            forall|k: int|
                0 <= k < digits.len() ==> #[trigger] digits[k] != 0x22 && !opens(digits[k])
                    && !closes(digits[k]) && !separates(digits[k])
        }),
{
    numeral::lemma_decimal_chars(number);
    let decimal = numeral::decimal(number);
    let digits = ascii_bytes(decimal);
    assert forall|k: int| 0 <= k < digits.len() implies #[trigger] digits[k] != 0x22 && !opens(
        digits[k],
    ) && !closes(digits[k]) && !separates(digits[k]) by {
        assert(digits[k] == decimal[k] as u8);
    }
}

proof fn lemma_inner(inner: Seq<char>, number: int)
    requires
        plain_key(inner),
    ensures
        ({
            let digits = ascii_bytes(numeral::decimal(number));
            &&& starts_with_key(record(inner, digits), inner)
            &&& json_text(ascii_bytes(quoted(inner))) == Some(inner) ==> field(
                record(inner, digits),
                inner,
            ) == Some(digits)
        }),
{
    let digits = ascii_bytes(numeral::decimal(number));
    let b = record(inner, digits);
    let m = inner.len() as int;
    lemma_record_shape(inner, digits);
    lemma_digits(number);
    let v = b.subrange(m + 4, b.len() - 1);
    assert forall|k: int| m + 4 <= k < b.len() - 1 implies #[trigger] b[k] != 0x22 && !opens(b[k])
        && !closes(b[k]) && !separates(b[k]) by {
        assert(b[k] == v[k - m - 4]);
    }
    lemma_plain_run(b, m + 4, b.len() - 1, 0);
    lemma_record(inner, digits);
}

proof fn lemma_outer(outer: Seq<char>, inner: Seq<char>, number: int)
    requires
        plain_key(outer),
        plain_key(inner),
    ensures
        ({
            let held = record(inner, ascii_bytes(numeral::decimal(number)));
            &&& starts_with_key(record(outer, held), outer)
            &&& json_text(ascii_bytes(quoted(outer))) == Some(outer) ==> field(
                record(outer, held),
                outer,
            ) == Some(held)
        }),
{
    let digits = ascii_bytes(numeral::decimal(number));
    let held = record(inner, digits);
    let b = record(outer, held);
    let m = inner.len() as int;
    let o = outer.len() as int;
    lemma_record_shape(inner, digits);
    lemma_record_shape(outer, held);
    lemma_digits(number);
    let v = b.subrange(o + 4, b.len() - 1);
    let w = held.subrange(m + 4, held.len() - 1);
    assert forall|k: int| 0 <= k < held.len() implies #[trigger] b[k + o + 4] == held[k] by {
        assert(b[k + o + 4] == v[k]);
    }
    assert(b[o + 4] == held[0]) by {
        assert(b[0 + o + 4] == held[0]);
    }
    assert(b.subrange(o + 5, o + m + 7) =~= held.subrange(1, m + 3)) by {
        assert(v.subrange(1, m + 3) =~= b.subrange(o + 5, o + m + 7));
    }
    lemma_key(b, inner, o + 5, 1);
    assert(b[o + m + 7] == 0x3a) by {
        assert(b[(m + 3) + o + 4] == held[m + 3]);
    }
    assert forall|k: int| o + m + 8 <= k < b.len() - 2 implies #[trigger] b[k] != 0x22 && !opens(
        b[k],
    ) && !closes(b[k]) && !separates(b[k]) by {
        assert(b[(k - o - 4) + o + 4] == held[k - o - 4]);
        assert(held[k - o - 4] == w[k - o - 4 - m - 4]);
    }
    lemma_plain_run(b, o + m + 8, b.len() - 2, 1);
    assert(b[b.len() - 2] == 0x7d) by {
        assert(b[(held.len() - 1) + o + 4] == held[held.len() - 1]);
    }
    assert(part_end(b, b.len() - 2, 1) == part_end(b, b.len() - 1, 0));
    assert(part_end(b, b.len() - 1, 0) == b.len() - 1);
    assert(part_end(b, o + m + 7, 1) == part_end(b, o + m + 8, 1));
    assert(part_end(b, o + 4, 0) == part_end(b, o + 5, 1));
    lemma_record(outer, held);
}

/// What the bytes of a nested number are read as.
proof fn lemma_nested(outer: Seq<char>, inner: Seq<char>, number: int)
    requires
        plain_key(outer),
        plain_key(inner),
    ensures
        ({
            let digits = ascii_bytes(numeral::decimal(number));
            let b = ascii_bytes(nested(outer, inner, number));
            &&& b == record(outer, record(inner, digits))
            &&& starts_with_key(b, outer)
            &&& starts_with_key(record(inner, digits), inner)
            &&& json_text(ascii_bytes(quoted(outer))) == Some(outer) ==> field(b, outer) == Some(
                record(inner, digits),
            )
            &&& json_text(ascii_bytes(quoted(inner))) == Some(inner) ==> field(
                record(inner, digits),
                inner,
            ) == Some(digits)
        }),
{
    reveal_strlit("{");
    reveal_strlit("}");
    reveal_strlit(":");
    let decimal = numeral::decimal(number);
    let held = "{"@ + quoted(inner) + ":"@ + decimal + "}"@;
    assert(ascii_bytes(held) =~= record(inner, ascii_bytes(decimal)));
    assert(ascii_bytes(nested(outer, inner, number)) =~= record(outer, ascii_bytes(held)));
    lemma_inner(inner, number);
    lemma_outer(outer, inner, number);
}

/// The number under a field of a record under a field of the record that some bytes hold. A
/// number that was written in compact form under plain keys is read back.
pub fn read_nested_number(bytes: &Vec<u8>, outer: &str, inner: &str) -> (r: Option<i64>)
    ensures
        r == number_in(bytes@, outer@, inner@),
        plain_key(outer@) && plain_key(inner@) ==> forall|number: i64|
            bytes@ == #[trigger] ascii_bytes(nested(outer@, inner@, number as int)) ==> r == Some(
                number,
            ),
{
    if !holds_json(bytes) {
        return None;
    }
    let record: Option<Vec<u8>> = field_of(bytes, outer);
    let record: Vec<u8> = match record {
        Some(record) => record,
        None => {
            proof {
                assert forall|number: i64|
                    plain_key(outer@) && plain_key(inner@) implies bytes@ != #[trigger] ascii_bytes(
                    nested(outer@, inner@, number as int),
                ) by {
                    lemma_nested(outer@, inner@, number as int);
                }
            }
            return None;
        },
    };
    let number: Option<Vec<u8>> = field_of(&record, inner);
    proof {
        assert forall|n: i64|
            plain_key(outer@) && plain_key(inner@) && bytes@ == #[trigger] ascii_bytes(
                nested(outer@, inner@, n as int),
            ) implies bytes_model(number) == Some(
            ascii_bytes(numeral::decimal(n as int)),
        ) by {
            lemma_nested(outer@, inner@, n as int);
        }
    }
    match &number {
        Some(number) => read_number(number),
        None => None,
    }
}

} // verus!
