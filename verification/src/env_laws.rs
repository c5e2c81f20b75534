//! What holds of environment files and of numbers that are written in texts.

use vstd::prelude::*;

use crate::dotenv::{self, LineModel};
use crate::numeral;
use crate::text;
use crate::text_laws;

verus! {

/// Whether a text starts and ends with something that shows.
pub open spec fn shows(s: Seq<char>) -> bool {
    s.len() > 0 && !text::is_white(s[0]) && !text::is_white(s.last())
}

/// A line with a key, an equals sign and a value sets the key to the value, whatever signs
/// the value holds.
pub proof fn lemma_line_sets_its_key(key: Seq<char>, value: Seq<char>)
    requires
        shows(key),
        shows(value),
        !key.contains('='),
        key[0] != '#',
    ensures
        dotenv::line_says(key + "="@ + value) == LineModel::Pair(key, value),
{
    reveal_strlit("=");
    reveal_strlit("#");
    let line = key + "="@ + value;
    let n = key.len() as int;
    assert(line[0] == key[0] && line.last() == value.last() && line[n] == '=');
    text_laws::lemma_trimmed_already(line);
    if "#"@.is_prefix_of(line) {
        assert(line.subrange(0, 1)[0] == '#');
    }
    assert(line.subrange(n, n + 1) =~= "="@);
    assert(text::matches_at(line, "="@, n));
    assert forall|k: int| 0 <= k < n implies !text::matches_at(line, "="@, k) by {
        if text::matches_at(line, "="@, k) {
            assert(line.subrange(k, k + 1)[0] == '=');
            assert(key.contains(key[k]));
        }
    }
    assert(text::first_at(line, "="@, n));
    text::lemma_found(line, "="@, n);
    assert(line.take(n) =~= key);
    assert(line.skip(n + 1) =~= value);
    text_laws::lemma_trimmed_already(key);
    text_laws::lemma_trimmed_already(value);
}

/// A comment says nothing, whatever it holds, and neither does a blank line.
pub proof fn lemma_comments_say_nothing(said: Seq<char>, blank: Seq<char>)
    requires
        shows(said),
        text::is_blank(blank),
    ensures
        dotenv::line_says("#"@ + said) == LineModel::Nothing,
        dotenv::line_says(blank) == LineModel::Nothing,
{
    reveal_strlit("#");
    let line = "#"@ + said;
    assert(line[0] == '#' && line.last() == said.last());
    assert(!text::is_white('#'));
    text_laws::lemma_trimmed_already(line);
    assert(line.subrange(0, 1) =~= "#"@);
    assert("#"@.is_prefix_of(line));
}

/// A line without an equals sign sets nothing, and neither does one without a key.
pub proof fn lemma_lines_that_set_nothing(line: Seq<char>, value: Seq<char>)
    requires
        shows(line),
        !line.contains('='),
        line[0] != '#',
        shows(value),
    ensures
        dotenv::line_says(line) == LineModel::NoEquals,
        dotenv::line_says("="@ + value) == LineModel::EmptyKey,
{
    reveal_strlit("=");
    reveal_strlit("#");
    text_laws::lemma_trimmed_already(line);
    if "#"@.is_prefix_of(line) {
        assert(line.subrange(0, 1)[0] == '#');
    }
    if text::occurs(line, "="@) {
        let k = choose|k: int| text::matches_at(line, "="@, k);
        assert(line.subrange(k, k + 1)[0] == '=');
        assert(line.contains(line[k]));
    }
    let bare = "="@ + value;
    assert(bare[0] == '=' && bare.last() == value.last());
    assert(!text::is_white('='));
    text_laws::lemma_trimmed_already(bare);
    if "#"@.is_prefix_of(bare) {
        assert(bare.subrange(0, 1)[0] == '#');
    }
    assert(bare.subrange(0, 1) =~= "="@);
    assert(text::matches_at(bare, "="@, 0));
    assert(text::first_at(bare, "="@, 0));
    text::lemma_found(bare, "="@, 0);
    assert(bare.take(0) =~= Seq::<char>::empty());
    let (a, b) = text::lemma_trimmed_shape(bare.take(0));
}

/// One more line comes last, where its key was not set before.
pub proof fn lemma_lines_set_in_order(
    lines: Seq<LineModel>,
    more: LineModel,
    names: Set<Seq<char>>,
    key: Seq<char>,
    value: Seq<char>,
)
    requires
        more == LineModel::Pair(key, value),
        !names.contains(key),
        forall|k: int|
            0 <= k < lines.len() ==> ((#[trigger] lines[k]) matches LineModel::Pair(other, _)
                ==> other != key),
    ensures
        dotenv::assigned_from(lines.push(more), 0, names) == dotenv::assigned_from(
            lines,
            0,
            names,
        ).push((key, value)),
{
    lemma_lines_from(lines, more, names, key, value, 0);
}

proof fn lemma_lines_from(
    lines: Seq<LineModel>,
    more: LineModel,
    names: Set<Seq<char>>,
    key: Seq<char>,
    value: Seq<char>,
    i: int,
)
    requires
        0 <= i <= lines.len(),
        more == LineModel::Pair(key, value),
        !names.contains(key),
        forall|k: int|
            0 <= k < lines.len() ==> ((#[trigger] lines[k]) matches LineModel::Pair(other, _)
                ==> other != key),
    ensures
        dotenv::assigned_from(lines.push(more), i, names) == dotenv::assigned_from(
            lines,
            i,
            names,
        ).push((key, value)),
    decreases lines.len() - i,
{
    let longer = lines.push(more);
    if i < lines.len() {
        assert(longer[i] == lines[i]);
        match lines[i] {
            LineModel::Pair(other, _) => {
                assert(other != key);
                if names.contains(other) {
                    lemma_lines_from(lines, more, names, key, value, i + 1);
                } else {
                    lemma_lines_from(lines, more, names.insert(other), key, value, i + 1);
                }
            },
            _ => {
                lemma_lines_from(lines, more, names, key, value, i + 1);
            },
        }
    } else {
        assert(longer[i] == more);
        assert(dotenv::assigned_from(longer, i + 1, names.insert(key)) =~= Seq::empty());
    }
    assert(dotenv::assigned_from(longer, i, names) =~= dotenv::assigned_from(
        lines,
        i,
        names,
    ).push((key, value)));
}

/// One more digit makes a number ten times as large, and larger by the digit; anything else
/// makes it no number.
pub proof fn lemma_one_more_digit(s: Seq<char>, more: char)
    requires
        s.len() > 0,
        s[0] != '-',
        s[0] != '+',
    ensures
        ({
            let before = numeral::parsed_int(s);
            let now = numeral::parsed_int(s.push(more));
            &&& before is Some && '0' <= more <= '9' ==> now == Some(
                before->0 * 10 + (more as int - 48),
            )
            &&& !('0' <= more <= '9') ==> now is None
            &&& before is None ==> now is None
        }),
{
    let longer = s.push(more);
    assert(longer[0] == s[0] && longer[s.len() as int] == more);
    assert(longer.drop_last() =~= s);
    if numeral::all_digits(s) && '0' <= more <= '9' {
        assert forall|i: int| 0 <= i < longer.len() implies numeral::is_digit(
            #[trigger] longer[i],
        ) by {
            if i < s.len() {
                assert(longer[i] == s[i]);
            }
        }
    }
    if numeral::all_digits(longer) {
        assert forall|i: int| 0 <= i < s.len() implies numeral::is_digit(#[trigger] s[i]) by {
            assert(longer[i] == s[i]);
        }
        assert(numeral::is_digit(longer[s.len() as int]));
    }
}

/// A sign in front counts: a minus turns the number round, and a plus changes nothing.
pub proof fn lemma_signs_count(s: Seq<char>)
    requires
        s.len() > 0,
        s[0] != '-',
        s[0] != '+',
    ensures
        ({
            let n = numeral::parsed_int(s);
            let less = numeral::parsed_int(seq!['-'] + s);
            &&& numeral::parsed_int(seq!['+'] + s) == n
            &&& n is Some <==> less is Some
            &&& n is Some ==> less->0 == -n->0
        }),
{
    assert((seq!['-'] + s).drop_first() =~= s);
    assert((seq!['+'] + s).drop_first() =~= s);
    assert((seq!['-'] + s)[0] == '-' && (seq!['+'] + s)[0] == '+');
}

/// A number within the bounds is read as it is, and any other is refused.
pub proof fn lemma_numbers_within_bounds(n: int, low: int, high: int)
    requires
        low <= high,
    ensures
        low <= n <= high ==> numeral::parsed_within(numeral::decimal(n), low, high) == Some(n),
        !(low <= n <= high) ==> numeral::parsed_within(numeral::decimal(n), low, high) is None,
        0 <= n <= high ==> numeral::parsed_unsigned(numeral::decimal(n), high) == Some(n),
        n < 0 || n > high ==> numeral::parsed_unsigned(numeral::decimal(n), high) is None,
{
    numeral::lemma_decimal_reads_back(n);
    numeral::lemma_decimal_chars(n);
}

} // verus!
