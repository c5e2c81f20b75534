//! Decimal numerals: how integers are written and read.

use vstd::prelude::*;

use crate::text::chars_of;

verus! {

/// The decimal digit with value `d`.
pub open spec fn digit_char(d: int) -> char {
    if d == 0 { '0' } else if d == 1 { '1' } else if d == 2 { '2' } else if d == 3 { '3' }
    else if d == 4 { '4' } else if d == 5 { '5' } else if d == 6 { '6' } else if d == 7 { '7' }
    else if d == 8 { '8' } else { '9' }
}

fn digit(d: u8) -> (c: char)
    requires
        d < 10,
    ensures
        c == digit_char(d as int),
{
    if d == 0 { '0' } else if d == 1 { '1' } else if d == 2 { '2' } else if d == 3 { '3' }
    else if d == 4 { '4' } else if d == 5 { '5' } else if d == 6 { '6' } else if d == 7 { '7' }
    else if d == 8 { '8' } else { '9' }
}

pub open spec fn is_digit(c: char) -> bool {
    '0' <= c <= '9'
}

pub open spec fn digit_value(c: char) -> int {
    c as int - '0' as int
}

/// The digits of `n` without leading zeros.
pub open spec fn digits(n: nat) -> Seq<char>
    decreases n,
{
    if n < 10 {
        seq![digit_char(n as int)]
    } else {
        digits(n / 10).push(digit_char((n % 10) as int))
    }
}

/// `n` in decimal, with a leading `-` when negative.
pub open spec fn decimal(n: int) -> Seq<char> {
    if n < 0 {
        seq!['-'] + digits((-n) as nat)
    } else {
        digits(n as nat)
    }
}

fn write_digits(n: u64) -> (out: String)
    ensures
        out@ == digits(n as nat),
    decreases n,
{
    if n < 10 {
        let mut out: String = String::new();
        out.push(digit(n as u8));
        assert(out@ =~= digits(n as nat));
        out
    } else {
        let mut out: String = write_digits(n / 10);
        out.push(digit((n % 10) as u8));
        out
    }
}

/// `n` in decimal.
pub fn format_i64(n: i64) -> (out: String)
    ensures
        out@ == decimal(n as int),
{
    if n >= 0 {
        write_digits(n as u64)
    } else {
        let magnitude: u64 = if n == i64::MIN {
            9_223_372_036_854_775_808
        } else {
            (-n) as u64
        };
        let body: String = write_digits(magnitude);
        let mut out: String = String::new();
        out.push('-');
        out.append(body.as_str());
        assert(out@ =~= decimal(n as int));
        out
    }
}

pub fn format_i32(n: i32) -> (out: String)
    ensures
        out@ == decimal(n as int),
{
    format_i64(n as i64)
}

pub fn format_u64(n: u64) -> (out: String)
    ensures
        out@ == decimal(n as int),
{
    write_digits(n)
}

/// Whether `s` is all decimal digits.
pub open spec fn all_digits(s: Seq<char>) -> bool {
    forall|i: int| 0 <= i < s.len() ==> is_digit(#[trigger] s[i])
}

/// The number that a run of digits denotes.
pub open spec fn digits_value(s: Seq<char>) -> int
    decreases s.len(),
{
    if s.len() == 0 {
        0
    } else {
        digits_value(s.drop_last()) * 10 + digit_value(s.last())
    }
}

/// The integer a numeral denotes: an optional sign and at least one digit.
pub open spec fn parsed_int(s: Seq<char>) -> Option<int> {
    let signed = s.len() > 0 && (s[0] == '-' || s[0] == '+');
    let body = if signed {
        s.drop_first()
    } else {
        s
    };
    if body.len() == 0 || !all_digits(body) {
        None
    } else if s[0] == '-' {
        Some(-digits_value(body))
    } else {
        Some(digits_value(body))
    }
}

/// The integer of `low..=high` that `s` denotes.
pub open spec fn parsed_within(s: Seq<char>, low: int, high: int) -> Option<int> {
    match parsed_int(s) {
        Some(n) => if low <= n <= high {
            Some(n)
        } else {
            None
        },
        None => None,
    }
}

/// The natural number up to `high` that `s` denotes: a `-` is not accepted, not even on zero.
pub open spec fn parsed_unsigned(s: Seq<char>, high: int) -> Option<int> {
    if s.len() > 0 && s[0] == '-' {
        None
    } else {
        parsed_within(s, 0, high)
    }
}

proof fn lemma_digits_value_nonneg(s: Seq<char>)
    requires
        all_digits(s),
    ensures
        digits_value(s) >= 0,
    decreases s.len(),
{
    if s.len() > 0 {
        assert(all_digits(s.drop_last()));
        lemma_digits_value_nonneg(s.drop_last());
        assert(is_digit(s[s.len() - 1]));
    }
}

/// The value of `chars[from..]`, or `None` once it exceeds `limit` or meets a non-digit.
fn read_digits(chars: &Vec<char>, from: usize, limit: u64) -> (r: Option<u64>)
    requires
        from <= chars@.len(),
        limit <= 9_223_372_036_854_775_808,
    ensures
        match r {
            Some(n) => from < chars@.len() && n <= limit && all_digits(
                chars@.subrange(from as int, chars@.len() as int),
            ) && digits_value(chars@.subrange(from as int, chars@.len() as int)) == n,
            None => from == chars@.len() || !all_digits(
                chars@.subrange(from as int, chars@.len() as int),
            ) || digits_value(chars@.subrange(from as int, chars@.len() as int)) > limit,
        },
{
    let ghost body = chars@.subrange(from as int, chars@.len() as int);
    if from == chars.len() {
        return None;
    }
    let mut over: bool = false;
    let mut value: u64 = 0;
    let mut i: usize = from;
    while i < chars.len()
        invariant
            from <= i <= chars@.len(),
            limit <= 9_223_372_036_854_775_808,
            body == chars@.subrange(from as int, chars@.len() as int),
            all_digits(body.take(i - from)),
            !over ==> value <= limit && digits_value(body.take(i - from)) == value,
            over ==> digits_value(body.take(i - from)) > limit,
        decreases chars@.len() - i,
    {
        let c: char = chars[i];
        let ghost now = body.take(i - from);
        let ghost next = body.take(i + 1 - from);
        assert(next.drop_last() =~= now);
        assert(next.last() == c);
        if !('0' <= c && c <= '9') {
            assert(!is_digit(body[i - from]));
            return None;
        }
        assert forall|k: int| 0 <= k < next.len() implies is_digit(#[trigger] next[k]) by {
            if k < now.len() {
                assert(now[k] == next[k]);
            }
        }
        proof {
            lemma_digits_value_nonneg(now);
        }
        let d: u64 = (c as u32 - '0' as u32) as u64;
        if !over {
            if value as u128 * 10 + d as u128 > limit as u128 {
                over = true;
            } else {
                value = value * 10 + d;
            }
        }
        i = i + 1;
    }
    assert(body.take(i - from) =~= body);
    if over {
        None
    } else {
        Some(value)
    }
}

/// The signed 64-bit integer that `text` denotes.
pub fn parse_i64(text: &str) -> (r: Option<i64>)
    ensures
        match r {
            Some(n) => parsed_within(text@, i64::MIN as int, i64::MAX as int) == Some(n as int),
            None => parsed_within(text@, i64::MIN as int, i64::MAX as int) is None,
        },
{
    let chars: Vec<char> = chars_of(text);
    if chars.len() == 0 {
        assert(text@.len() == 0);
        return None;
    }
    let ghost whole = text@.subrange(0, text@.len() as int);
    assert(whole =~= text@);
    let ghost tail = text@.subrange(1, text@.len() as int);
    assert(tail =~= text@.drop_first());
    proof {
        if all_digits(tail) {
            lemma_digits_value_nonneg(tail);
        }
        if all_digits(text@) {
            lemma_digits_value_nonneg(text@);
        }
    }
    if chars[0] == '-' {
        match read_digits(&chars, 1, 9_223_372_036_854_775_808) {
            Some(n) => if n == 9_223_372_036_854_775_808 {
                Some(i64::MIN)
            } else {
                Some(-(n as i64))
            },
            None => None,
        }
    } else if chars[0] == '+' {
        match read_digits(&chars, 1, 9_223_372_036_854_775_807) {
            Some(n) => Some(n as i64),
            None => None,
        }
    } else {
        match read_digits(&chars, 0, 9_223_372_036_854_775_807) {
            Some(n) => Some(n as i64),
            None => None,
        }
    }
}

/// The signed 32-bit integer that `text` denotes.
pub fn parse_i32(text: &str) -> (r: Option<i32>)
    ensures
        match r {
            Some(n) => parsed_within(text@, i32::MIN as int, i32::MAX as int) == Some(n as int),
            None => parsed_within(text@, i32::MIN as int, i32::MAX as int) is None,
        },
{
    match parse_i64(text) {
        Some(n) => if -2_147_483_648 <= n && n <= 2_147_483_647 {
            Some(n as i32)
        } else {
            None
        },
        None => None,
    }
}

/// The unsigned 16-bit integer that `text` denotes.
pub fn parse_u16(text: &str) -> (r: Option<u16>)
    ensures
        match r {
            Some(n) => parsed_unsigned(text@, u16::MAX as int) == Some(n as int),
            None => parsed_unsigned(text@, u16::MAX as int) is None,
        },
{
    let chars: Vec<char> = chars_of(text);
    if chars.len() > 0 && chars[0] == '-' {
        return None;
    }
    match parse_i64(text) {
        Some(n) => if 0 <= n && n <= 65_535 {
            Some(n as u16)
        } else {
            None
        },
        None => None,
    }
}

proof fn lemma_digit_char(d: int)
    requires
        0 <= d < 10,
    ensures
        is_digit(digit_char(d)),
        digit_value(digit_char(d)) == d,
{
}

proof fn lemma_digits_read(n: nat)
    ensures
        digits(n).len() > 0,
        all_digits(digits(n)),
        digits_value(digits(n)) == n,
    decreases n,
{
    if n < 10 {
        lemma_digit_char(n as int);
        let s = digits(n);
        assert(s.drop_last() =~= Seq::<char>::empty());
        assert(digits_value(s.drop_last()) == 0);
    } else {
        lemma_digits_read(n / 10);
        lemma_digit_char((n % 10) as int);
        let s = digits(n);
        assert(s.drop_last() =~= digits(n / 10));
        assert forall|i: int| 0 <= i < s.len() implies is_digit(#[trigger] s[i]) by {
            if i < s.len() - 1 {
                assert(s[i] == digits(n / 10)[i]);
            }
        }
    }
}

/// Reading what was written gives the integer back.
pub proof fn lemma_decimal_reads_back(n: int)
    ensures
        parsed_int(decimal(n)) == Some(n),
{
    let magnitude = if n < 0 { (-n) as nat } else { n as nat };
    lemma_digits_read(magnitude);
    let s = decimal(n);
    if n < 0 {
        assert(s.drop_first() =~= digits(magnitude));
    } else {
        assert(is_digit(s[0]));
    }
}

/// A decimal numeral holds digits, after a `-` where it is negative.
pub proof fn lemma_decimal_chars(n: int)
    ensures
        decimal(n).len() > 0,
        forall|i: int|
            0 <= i < decimal(n).len() ==> is_digit(#[trigger] decimal(n)[i]) || decimal(n)[i]
                == '-',
        decimal(n)[0] == '-' <==> n < 0,
{
    let magnitude = if n < 0 { (-n) as nat } else { n as nat };
    lemma_digits_read(magnitude);
    assert(is_digit(digits(magnitude)[0]));
    if n < 0 {
        assert forall|i: int| 0 <= i < decimal(n).len() implies is_digit(#[trigger] decimal(n)[i])
            || decimal(n)[i] == '-' by {
            if i > 0 {
                assert(decimal(n)[i] == digits(magnitude)[i - 1]);
            }
        }
    }
}

proof fn lemma_digits_len(n: nat, width: nat)
    requires
        width > 0,
        n < vstd::arithmetic::power::pow(10, width),
    ensures
        digits(n).len() <= width,
    decreases width,
{
    reveal(vstd::arithmetic::power::pow);
    if n >= 10 {
        assert(width > 1) by {
            if width == 1 {
                assert(vstd::arithmetic::power::pow(10, 0) == 1);
            }
        }
        assert(vstd::arithmetic::power::pow(10, width) == 10 * vstd::arithmetic::power::pow(
            10,
            (width - 1) as nat,
        ));
        lemma_digits_len(n / 10, (width - 1) as nat);
    }
}

/// A 64-bit integer takes at most twenty characters.
pub proof fn lemma_decimal_len(n: i64)
    ensures
        decimal(n as int).len() <= 20,
{
    reveal_with_fuel(vstd::arithmetic::power::pow, 20);
    assert(vstd::arithmetic::power::pow(10, 19) == 10_000_000_000_000_000_000);
    let magnitude = if n < 0 { (-n) as nat } else { n as nat };
    lemma_digits_len(magnitude, 19);
}

/// Two different integers are written differently.
pub proof fn lemma_decimal_injective(a: int, b: int)
    requires
        decimal(a) == decimal(b),
    ensures
        a == b,
{
    lemma_decimal_reads_back(a);
    lemma_decimal_reads_back(b);
}

} // verus!
