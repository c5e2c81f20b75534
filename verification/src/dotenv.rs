//! A lenient reading of environment files: values may hold spaces, quotes and signs as
//! they are.

use vstd::prelude::*;

use crate::text::{self, same};

verus! {

/// What one line of an environment file says.
#[derive(Debug, PartialEq, Eq)]
pub enum EnvLine {
    /// Blank, or a comment.
    Nothing,
    /// There is no equals sign.
    NoEquals,
    /// There is nothing before the equals sign.
    EmptyKey,
    Pair { key: String, value: String },
}

#[verifier::ext_equal]
pub enum LineModel {
    Nothing,
    NoEquals,
    EmptyKey,
    Pair(Seq<char>, Seq<char>),
}

impl View for EnvLine {
    type V = LineModel;

    open spec fn view(&self) -> LineModel {
        match self {
            EnvLine::Nothing => LineModel::Nothing,
            EnvLine::NoEquals => LineModel::NoEquals,
            EnvLine::EmptyKey => LineModel::EmptyKey,
            EnvLine::Pair { key, value } => LineModel::Pair(key@, value@),
        }
    }
}

/// What one line of an environment file says: what stands before and after its first
/// equals sign, both trimmed.
pub open spec fn line_says(line: Seq<char>) -> LineModel {
    let trimmed = text::trimmed(line);
    if trimmed.len() == 0 || "#"@.is_prefix_of(trimmed) {
        LineModel::Nothing
    } else {
        match text::found(trimmed, "="@) {
            None => LineModel::NoEquals,
            Some(at) => {
                let key = text::trimmed(trimmed.take(at));
                if key.len() == 0 {
                    LineModel::EmptyKey
                } else {
                    LineModel::Pair(key, text::trimmed(trimmed.skip(at + 1)))
                }
            },
        }
    }
}

/// What one line of an environment file says.
pub fn parse_env_line(line: &str) -> (r: EnvLine)
    ensures
        r@ == line_says(line@),
{
    proof {
        reveal_strlit("=");
    }
    let trimmed: String = text::trim(line);
    if trimmed.as_str().is_empty() || text::starts_with(trimmed.as_str(), "#") {
        return EnvLine::Nothing;
    }
    match text::find(trimmed.as_str(), "=") {
        None => EnvLine::NoEquals,
        Some(at) => {
            let left: String = text::prefix_to(trimmed.as_str(), at);
            let right: String = text::suffix_from(trimmed.as_str(), at + 1);
            assert(left@ =~= trimmed@.take(at as int));
            assert(right@ =~= trimmed@.skip(at + 1));
            let key: String = text::trim(left.as_str());
            if key.as_str().is_empty() {
                EnvLine::EmptyKey
            } else {
                EnvLine::Pair { key, value: text::trim(right.as_str()) }
            }
        },
    }
}

pub open spec fn lines_say(lines: Seq<EnvLine>) -> Seq<LineModel> {
    Seq::new(lines.len(), |i: int| lines[i]@)
}

/// What the lines of an environment file say, in order.
pub fn parse_env(content: &str) -> (out: Vec<EnvLine>)
    ensures
        lines_say(out@) == Seq::new(
            text::lines_spec(content@).len(),
            |i: int| line_says(text::lines_spec(content@)[i]),
        ),
{
    let lines: Vec<String> = text::lines(content);
    let ghost all = text::lines_spec(content@);
    let mut out: Vec<EnvLine> = Vec::new();
    let mut i: usize = 0;
    while i < lines.len()
        invariant
            i <= lines.len(),
            text::texts(lines@) == all,
            out@.len() == i,
            forall|k: int| 0 <= k < i ==> (#[trigger] out@[k])@ == line_says(all[k]),
        decreases lines.len() - i,
    {
        assert(all[i as int] == lines@[i as int]@);
        out.push(parse_env_line(lines[i].as_str()));
        i = i + 1;
    }
    assert(all.len() == lines@.len());
    out
}

/// What is set once the lines from `i` on are read, where `names` are set already: a
/// variable that is set keeps its value.
pub open spec fn assigned_from(lines: Seq<LineModel>, i: int, names: Set<Seq<char>>) -> Seq<
    (Seq<char>, Seq<char>),
>
    decreases lines.len() - i,
{
    if i < 0 || i >= lines.len() {
        Seq::empty()
    } else {
        match lines[i] {
            LineModel::Pair(key, value) => if names.contains(key) {
                assigned_from(lines, i + 1, names)
            } else {
                seq![(key, value)] + assigned_from(lines, i + 1, names.insert(key))
            },
            _ => assigned_from(lines, i + 1, names),
        }
    }
}

/// The texts as a set.
pub open spec fn name_set(names: Seq<String>) -> Set<Seq<char>> {
    Set::new(|name: Seq<char>| text::texts(names).contains(name))
}

pub open spec fn pairs(assigned: Seq<(String, String)>) -> Seq<(Seq<char>, Seq<char>)> {
    Seq::new(assigned.len(), |i: int| (assigned[i].0@, assigned[i].1@))
}

fn holds(names: &Vec<String>, name: &str) -> (r: bool)
    ensures
        r == name_set(names@).contains(name@),
{
    let ghost all = text::texts(names@);
    let mut i: usize = 0;
    while i < names.len()
        invariant
            i <= names.len(),
            all == text::texts(names@),
            forall|k: int| 0 <= k < i ==> #[trigger] all[k] != name@,
        decreases names.len() - i,
    {
        assert(all[i as int] == names@[i as int]@);
        if same(names[i].as_str(), name) {
            assert(all.contains(name@));
            return true;
        }
        i = i + 1;
    }
    assert(!all.contains(name@));
    false
}

/// The variables that an environment file sets, in order, where `existing` are the names
/// of those that the process already has.
pub fn env_assignments(content: &str, existing: Vec<String>) -> (assigned: Vec<(String, String)>)
    ensures
        pairs(assigned@) == assigned_from(
            Seq::new(
                text::lines_spec(content@).len(),
                |i: int| line_says(text::lines_spec(content@)[i]),
            ),
            0,
            name_set(existing@),
        ),
{
    let lines: Vec<EnvLine> = parse_env(content);
    let ghost all = lines_say(lines@);
    let ghost wanted = assigned_from(all, 0, name_set(existing@));
    let mut names: Vec<String> = existing;
    let mut assigned: Vec<(String, String)> = Vec::new();
    let mut i: usize = 0;
    assert(pairs(assigned@) + wanted =~= wanted);
    while i < lines.len()
        invariant
            i <= lines.len(),
            all == lines_say(lines@),
            pairs(assigned@) + assigned_from(all, i as int, name_set(names@)) == wanted,
        decreases lines.len() - i,
    {
        assert(all[i as int] == lines@[i as int]@);
        let ghost set_before = name_set(names@);
        let ghost before = assigned@;
        if let EnvLine::Pair { key, value } = &lines[i] {
            if !holds(&names, key.as_str()) {
                let ghost listed = names@;
                names.push(key.clone());
                assigned.push((key.clone(), value.clone()));
                proof {
                    assert(text::texts(names@) =~= text::texts(listed).push(key@));
                    assert(name_set(names@) =~= set_before.insert(key@)) by {
                        assert forall|name: Seq<char>|
                            text::texts(names@).contains(name) == (text::texts(listed).contains(
                                name,
                            ) || name == key@) by {
                            lemma_push_contains(text::texts(listed), key@, name);
                        }
                    }
                    assert(pairs(assigned@) =~= pairs(before) + seq![(key@, value@)]);
                    assert(pairs(assigned@) + assigned_from(all, i + 1, name_set(names@))
                        =~= pairs(before) + (seq![(key@, value@)] + assigned_from(
                        all,
                        i + 1,
                        name_set(names@),
                    )));
                }
            }
        }
        i = i + 1;
    }
    assert(pairs(assigned@) =~= wanted);
    assigned
}

proof fn lemma_push_contains(names: Seq<Seq<char>>, key: Seq<char>, name: Seq<char>)
    ensures
        names.push(key).contains(name) == (names.contains(name) || name == key),
{
    let longer = names.push(key);
    if names.contains(name) {
        let at = choose|at: int| 0 <= at < names.len() && names[at] == name;
        assert(longer[at] == name);
    }
    if name == key {
        assert(longer[names.len() as int] == name);
    }
    if longer.contains(name) {
        let at = choose|at: int| 0 <= at < longer.len() && longer[at] == name;
        assert(at < names.len() ==> names[at] == name);
    }
}

/// A file never sets a variable that was set before, and no variable twice.
pub proof fn lemma_set_once(lines: Seq<LineModel>, i: int, names: Set<Seq<char>>)
    requires
        0 <= i,
    ensures
        forall|k: int|
            0 <= k < assigned_from(lines, i, names).len() ==> !names.contains(
                (#[trigger] assigned_from(lines, i, names)[k]).0,
            ),
        forall|j: int, k: int|
            0 <= j < k < assigned_from(lines, i, names).len() ==> (#[trigger] assigned_from(
                lines,
                i,
                names,
            )[j]).0 != (#[trigger] assigned_from(lines, i, names)[k]).0,
    decreases lines.len() - i,
{
    let all = assigned_from(lines, i, names);
    if i < lines.len() {
        match lines[i] {
            LineModel::Pair(key, value) => {
                if names.contains(key) {
                    lemma_set_once(lines, i + 1, names);
                    assert(all == assigned_from(lines, i + 1, names));
                } else {
                    let rest = assigned_from(lines, i + 1, names.insert(key));
                    lemma_set_once(lines, i + 1, names.insert(key));
                    assert(all =~= seq![(key, value)] + rest);
                    assert forall|k: int| 0 <= k < all.len() implies !names.contains(
                        (#[trigger] all[k]).0,
                    ) by {
                        if k > 0 {
                            assert(all[k] == rest[k - 1]);
                        }
                    }
                    assert forall|j: int, k: int| 0 <= j < k < all.len() implies (
                    #[trigger] all[j]).0 != (#[trigger] all[k]).0 by {
                        assert(all[k] == rest[k - 1]);
                        if j > 0 {
                            assert(all[j] == rest[j - 1]);
                        }
                    }
                }
            },
            _ => {
                lemma_set_once(lines, i + 1, names);
                assert(all == assigned_from(lines, i + 1, names));
            },
        }
    }
}

} // verus!
