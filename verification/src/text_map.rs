//! A map keyed by text, and texts ordered by score.

use vstd::prelude::*;

use crate::text::{self, comes_before, same};

verus! {

/// A map from texts to values.
#[derive(Debug)]
pub struct TextMap<V> {
    rows: Vec<(String, V)>,
}

/// Whether `rows[i]` is the row of `key`.
pub open spec fn row_of<V>(rows: Seq<(String, V)>, key: Seq<char>, i: int) -> bool {
    0 <= i < rows.len() && rows[i].0@ == key
}

/// Whether no two rows share a key.
pub open spec fn distinct_keys<V>(rows: Seq<(String, V)>) -> bool {
    forall|i: int, j: int|
        0 <= i < rows.len() && 0 <= j < rows.len() && i != j ==> (#[trigger] rows[i]).0@ != (
        #[trigger] rows[j]).0@
}

/// What rows map texts to.
pub open spec fn rows_map<V>(rows: Seq<(String, V)>) -> Map<Seq<char>, V> {
    Map::new(
        |key: Seq<char>| exists|i: int| row_of(rows, key, i),
        |key: Seq<char>| rows[choose|i: int| row_of(rows, key, i)].1,
    )
}

proof fn lemma_row<V>(rows: Seq<(String, V)>, i: int)
    requires
        distinct_keys(rows),
        0 <= i < rows.len(),
    ensures
        rows_map(rows).contains_key(rows[i].0@),
        rows_map(rows)[rows[i].0@] == rows[i].1,
{
    let key = rows[i].0@;
    assert(row_of(rows, key, i));
    let j = choose|j: int| row_of(rows, key, j);
    assert(row_of(rows, key, j));
    assert(i == j);
}

impl<V> View for TextMap<V> {
    type V = Map<Seq<char>, V>;

    closed spec fn view(&self) -> Map<Seq<char>, V> {
        rows_map(self.rows@)
    }
}

impl<V> TextMap<V> {
    /// Every key stands once.
    pub closed spec fn wf(&self) -> bool {
        distinct_keys(self.rows@)
    }

    pub fn new() -> (r: Self)
        ensures
            r.wf(),
            r@ == Map::<Seq<char>, V>::empty(),
    {
        let r = TextMap { rows: Vec::new() };
        assert(r@ =~= Map::<Seq<char>, V>::empty());
        r
    }

    fn position(&self, key: &str) -> (r: Option<usize>)
        ensures
            match r {
                Some(i) => row_of(self.rows@, key@, i as int),
                None => forall|i: int| !row_of(self.rows@, key@, i),
            },
    {
        let mut i: usize = 0;
        while i < self.rows.len()
            invariant
                i <= self.rows.len(),
                forall|k: int| 0 <= k < i ==> (#[trigger] self.rows@[k]).0@ != key@,
            decreases self.rows.len() - i,
        {
            if same(self.rows[i].0.as_str(), key) {
                return Some(i);
            }
            i = i + 1;
        }
        None
    }

    /// The value of `key`.
    pub fn get(&self, key: &str) -> (r: Option<&V>)
        requires
            self.wf(),
        ensures
            match r {
                Some(value) => self@.contains_key(key@) && *value == self@[key@],
                None => !self@.contains_key(key@),
            },
    {
        match self.position(key) {
            Some(i) => {
                proof {
                    lemma_row(self.rows@, i as int);
                }
                Some(&self.rows[i].1)
            },
            None => None,
        }
    }

    /// Take the value of `key` out.
    pub fn remove(&mut self, key: &str) -> (r: Option<V>)
        requires
            old(self).wf(),
        ensures
            final(self).wf(),
            final(self)@ == old(self)@.remove(key@),
            match r {
                Some(value) => old(self)@.contains_key(key@) && value == old(self)@[key@],
                None => !old(self)@.contains_key(key@),
            },
    {
        match self.position(key) {
            Some(i) => {
                let ghost rows = self.rows@;
                proof {
                    lemma_row(rows, i as int);
                }
                let row: (String, V) = self.rows.remove(i);
                let ghost left = self.rows@;
                proof {
                    assert(left =~= rows.remove(i as int));
                    assert forall|k: int| 0 <= k < left.len() implies #[trigger] left[k] == rows[if k
                        < i {
                        k
                    } else {
                        k + 1
                    }] by {}
                    assert(distinct_keys(left));
                    assert forall|other: Seq<char>| rows_map(left).contains_key(other)
                        <==> #[trigger] rows_map(rows).remove(key@).contains_key(other) by {
                        if rows_map(left).contains_key(other) {
                            let k = choose|k: int| row_of(left, other, k);
                            assert(row_of(rows, other, if k < i { k } else { k + 1 }));
                        }
                        if rows_map(rows).remove(key@).contains_key(other) {
                            let k = choose|k: int| row_of(rows, other, k);
                            assert(row_of(rows, other, k));
                            assert(k != i);
                            assert(row_of(left, other, if k < i { k } else { k - 1 }));
                        }
                    }
                    assert forall|other: Seq<char>| #[trigger] rows_map(left).contains_key(
                        other,
                    ) implies rows_map(left)[other] == rows_map(rows).remove(key@)[other] by {
                        let k = choose|k: int| row_of(left, other, k);
                        assert(row_of(left, other, k));
                        lemma_row(left, k);
                        lemma_row(rows, if k < i { k } else { k + 1 });
                        assert(rows_map(rows).remove(key@).contains_key(other));
                    }
                    assert(rows_map(left) =~= rows_map(rows).remove(key@));
                }
                Some(row.1)
            },
            None => {
                assert(self@.remove(key@) =~= self@);
                None
            },
        }
    }

    /// Set the value of `key`.
    pub fn insert(&mut self, key: &str, value: V)
        requires
            old(self).wf(),
        ensures
            final(self).wf(),
            final(self)@ == old(self)@.insert(key@, value),
    {
        let ghost before = self@;
        let _previous: Option<V> = self.remove(key);
        let ghost rows = self.rows@;
        self.rows.push((key.to_owned(), value));
        let ghost more = self.rows@;
        proof {
            assert forall|k: int| 0 <= k < rows.len() implies (#[trigger] more[k]).0@ != key@ by {
                if more[k].0@ == key@ {
                    assert(row_of(rows, key@, k));
                    assert(rows_map(rows).contains_key(key@));
                }
            }
            assert(distinct_keys(more));
            assert forall|other: Seq<char>| rows_map(more).contains_key(other)
                <==> #[trigger] before.insert(key@, value).contains_key(other) by {
                if rows_map(more).contains_key(other) {
                    let k = choose|k: int| row_of(more, other, k);
                    assert(row_of(more, other, k));
                    if k < rows.len() {
                        assert(row_of(rows, other, k));
                        assert(rows_map(rows).contains_key(other));
                    }
                }
                if before.insert(key@, value).contains_key(other) {
                    if other == key@ {
                        assert(row_of(more, other, rows.len() as int));
                    } else {
                        assert(rows_map(rows).contains_key(other));
                        let k = choose|k: int| row_of(rows, other, k);
                        assert(row_of(more, other, k));
                    }
                }
            }
            assert forall|other: Seq<char>| #[trigger] rows_map(more).contains_key(
                other,
            ) implies rows_map(more)[other] == before.insert(key@, value)[other] by {
                let k = choose|k: int| row_of(more, other, k);
                assert(row_of(more, other, k));
                lemma_row(more, k);
                if k < rows.len() {
                    assert(row_of(rows, other, k));
                    lemma_row(rows, k);
                }
            }
            assert(rows_map(more) =~= before.insert(key@, value));
        }
    }

    /// How many keys there are.
    pub fn len(&self) -> (n: usize)
        ensures
            n == self.size(),
    {
        self.rows.len()
    }

    pub closed spec fn size(&self) -> nat {
        self.rows@.len()
    }

    /// The `i`th key and value, in no particular order.
    pub closed spec fn row(&self, i: int) -> (Seq<char>, V) {
        (self.rows@[i].0@, self.rows@[i].1)
    }

    /// The rows are the keys with their values, each once.
    pub proof fn lemma_rows(&self)
        requires
            self.wf(),
        ensures
            forall|i: int|
                0 <= i < self.size() ==> self@.contains_key((#[trigger] self.row(i)).0)
                    && self@[self.row(i).0] == self.row(i).1,
            forall|i: int, j: int|
                0 <= i < self.size() && 0 <= j < self.size() && i != j ==> (#[trigger] self.row(
                    i,
                )).0 != (#[trigger] self.row(j)).0,
            forall|key: Seq<char>| #[trigger]
                self@.contains_key(key) ==> exists|i: int|
                    0 <= i < self.size() && (#[trigger] self.row(i)).0 == key,
    {
        assert forall|i: int| 0 <= i < self.size() implies self@.contains_key(
            (#[trigger] self.row(i)).0,
        ) && self@[self.row(i).0] == self.row(i).1 by {
            lemma_row(self.rows@, i);
        }
        assert forall|key: Seq<char>| #[trigger] self@.contains_key(key) implies exists|i: int|
            0 <= i < self.size() && (#[trigger] self.row(i)).0 == key by {
            let i = choose|i: int| row_of(self.rows@, key, i);
            assert(row_of(self.rows@, key, i));
            assert(self.row(i).0 == key);
        }
    }

    /// The `i`th key.
    pub fn key_at(&self, i: usize) -> (key: String)
        requires
            i < self.size(),
        ensures
            key@ == self.row(i as int).0,
    {
        self.rows[i].0.clone()
    }

    /// The `i`th value.
    pub fn value_at(&self, i: usize) -> (value: &V)
        requires
            i < self.size(),
        ensures
            *value == self.row(i as int).1,
    {
        &self.rows[i].1
    }
}

// ---------------------------------------------------------------------------
// Scored texts
// ---------------------------------------------------------------------------

/// Scored texts, as pairs of the score and the text.
pub open spec fn scored(members: Seq<(i64, String)>) -> Seq<(i64, Seq<char>)> {
    Seq::new(members.len(), |i: int| (members[i].0, members[i].1@))
}

/// The order of scored texts: by score, then by text.
pub open spec fn ranks_before(a: (i64, Seq<char>), b: (i64, Seq<char>)) -> bool {
    a.0 < b.0 || (a.0 == b.0 && text::before(a.1, b.1))
}

/// Whether scored texts stand in order, each once.
pub open spec fn ranked(members: Seq<(i64, Seq<char>)>) -> bool {
    forall|i: int, j: int|
        0 <= i < j < members.len() ==> ranks_before(#[trigger] members[i], #[trigger] members[j])
}

/// Whether `members` lists what `scores` maps, in order.
pub open spec fn lists(members: Seq<(i64, Seq<char>)>, scores: Map<Seq<char>, i64>) -> bool {
    &&& ranked(members)
    &&& forall|score: i64, member: Seq<char>| #[trigger]
        members.contains((score, member)) <==> scores.contains_key(member) && scores[member]
            == score
}

proof fn lemma_ranks_total(a: (i64, Seq<char>), b: (i64, Seq<char>))
    ensures
        !(ranks_before(a, b) && ranks_before(b, a)),
        ranks_before(a, b) || ranks_before(b, a) || a == b,
        !ranks_before(a, a),
{
    text::lemma_before_total(a.1, b.1);
    text::lemma_before_total(a.1, a.1);
}

proof fn lemma_ranks_transitive(
    a: (i64, Seq<char>),
    b: (i64, Seq<char>),
    c: (i64, Seq<char>),
)
    requires
        ranks_before(a, b),
        ranks_before(b, c),
    ensures
        ranks_before(a, c),
{
    if a.0 == b.0 && b.0 == c.0 {
        text::lemma_before_transitive(a.1, b.1, c.1);
    }
}

fn goes_before(a: &(i64, String), b: &(i64, String)) -> (r: bool)
    ensures
        r == ranks_before((a.0, a.1@), (b.0, b.1@)),
{
    a.0 < b.0 || (a.0 == b.0 && comes_before(a.1.as_str(), b.1.as_str()))
}

/// Put a scored text into its place.
fn insert_ranked(members: &mut Vec<(i64, String)>, member: (i64, String))
    requires
        ranked(scored(old(members)@)),
        !scored(old(members)@).contains((member.0, member.1@)),
    ensures
        ranked(scored(final(members)@)),
        forall|pair: (i64, Seq<char>)| #[trigger]
            scored(final(members)@).contains(pair) <==> scored(old(members)@).contains(pair)
                || pair == (member.0, member.1@),
{
    let ghost all = scored(members@);
    let ghost added = (member.0, member.1@);
    let mut at: usize = 0;
    while at < members.len() && goes_before(&members[at], &member)
        invariant
            at <= members.len(),
            members@ == old(members)@,
            all == scored(members@),
            added == (member.0, member.1@),
            forall|k: int| 0 <= k < at ==> ranks_before(#[trigger] all[k], added),
        decreases members.len() - at,
    {
        assert(all[at as int] == (members@[at as int].0, members@[at as int].1@));
        at = at + 1;
    }
    proof {
        if at < members.len() {
            assert(all[at as int] == (members@[at as int].0, members@[at as int].1@));
            assert(all.contains(all[at as int]));
            lemma_ranks_total(all[at as int], added);
            assert(ranks_before(added, all[at as int]));
        }
    }
    members.insert(at, member);
    proof {
        let more = scored(members@);
        assert(more =~= all.insert(at as int, added));
        assert forall|i: int, j: int| 0 <= i < j < more.len() implies ranks_before(
            #[trigger] more[i],
            #[trigger] more[j],
        ) by {
            let x = if i < at { i } else { i - 1 };
            let y = if j < at { j } else { j - 1 };
            if i == at {
                assert(more[j] == all[j - 1]);
                if j - 1 > at {
                    lemma_ranks_transitive(added, all[at as int], all[j - 1]);
                }
            } else if j == at {
                assert(more[i] == all[i]);
            } else {
                assert(more[i] == all[x]);
                assert(more[j] == all[y]);
            }
        }
        assert forall|pair: (i64, Seq<char>)| #[trigger] more.contains(pair) <==> all.contains(pair)
            || pair == added by {
            if more.contains(pair) {
                let k = choose|k: int| 0 <= k < more.len() && more[k] == pair;
                if k < at {
                    assert(all[k] == pair);
                } else if k > at {
                    assert(all[k - 1] == pair);
                }
            }
            if all.contains(pair) {
                let k = choose|k: int| 0 <= k < all.len() && all[k] == pair;
                assert(more[if k < at { k } else { k + 1 }] == pair);
            }
            if pair == added {
                assert(more[at as int] == pair);
            }
        }
    }
}

impl TextMap<i64> {
    /// The keys with their scores, by ascending score, then by key.
    pub fn by_score(&self) -> (members: Vec<(i64, String)>)
        requires
            self.wf(),
        ensures
            lists(scored(members@), self@),
    {
        proof {
            self.lemma_rows();
        }
        let mut members: Vec<(i64, String)> = Vec::new();
        let mut i: usize = 0;
        while i < self.len()
            invariant
                i <= self.size(),
                self.wf(),
                ranked(scored(members@)),
                forall|score: i64, member: Seq<char>| #[trigger]
                    scored(members@).contains((score, member)) <==> exists|k: int|
                        0 <= k < i && #[trigger] self.row(k) == (member, score),
            decreases self.size() - i,
        {
            proof {
                self.lemma_rows();
            }
            let key: String = self.key_at(i);
            let score: i64 = *self.value_at(i);
            let ghost before = scored(members@);
            assert(!before.contains((score, key@))) by {
                if before.contains((score, key@)) {
                    let k = choose|k: int| 0 <= k < i && #[trigger] self.row(k) == (key@, score);
                    assert(self.row(k).0 == self.row(i as int).0);
                }
            }
            insert_ranked(&mut members, (score, key));
            proof {
                assert forall|s: i64, m: Seq<char>| #[trigger]
                    scored(members@).contains((s, m)) <==> exists|k: int|
                        0 <= k < i + 1 && #[trigger] self.row(k) == (m, s) by {
                    if scored(members@).contains((s, m)) {
                        if before.contains((s, m)) {
                            let k = choose|k: int| 0 <= k < i && #[trigger] self.row(k) == (m, s);
                            assert(self.row(k) == (m, s));
                        } else {
                            assert(self.row(i as int) == (m, s));
                        }
                    }
                    if exists|k: int| 0 <= k < i + 1 && #[trigger] self.row(k) == (m, s) {
                        let k = choose|k: int| 0 <= k < i + 1 && #[trigger] self.row(k) == (m, s);
                        if k < i {
                            assert(self.row(k) == (m, s));
                            assert(before.contains((s, m)));
                        }
                    }
                }
            }
            i = i + 1;
        }
        proof {
            self.lemma_rows();
            assert forall|s: i64, m: Seq<char>| #[trigger]
                scored(members@).contains((s, m)) <==> self@.contains_key(m) && self@[m] == s by {
                if scored(members@).contains((s, m)) {
                    let k = choose|k: int| 0 <= k < i && #[trigger] self.row(k) == (m, s);
                    assert(self.row(k) == (m, s));
                }
                if self@.contains_key(m) && self@[m] == s {
                    let k = choose|k: int| 0 <= k < self.size() && (#[trigger] self.row(k)).0 == m;
                    assert(self.row(k) == (m, s));
                }
            }
        }
        members
    }
}

/// Whether `member` has the lowest rank of all that `scores` maps.
pub open spec fn lowest(scores: Map<Seq<char>, i64>, member: Seq<char>) -> bool {
    &&& scores.contains_key(member)
    &&& forall|other: Seq<char>|
        scores.contains_key(other) && other != member ==> ranks_before(
            (scores[member], member),
            (#[trigger] scores[other], other),
        )
}

/// The first of a listing has the lowest rank.
pub proof fn lemma_first_is_lowest(
    members: Seq<(i64, Seq<char>)>,
    scores: Map<Seq<char>, i64>,
)
    requires
        lists(members, scores),
        members.len() > 0,
    ensures
        lowest(scores, members[0].1),
        scores[members[0].1] == members[0].0,
{
    let first = members[0];
    assert(members.contains(members[0]));
    assert(members.contains((first.0, first.1)));
    assert forall|other: Seq<char>| scores.contains_key(other) && other != first.1
        implies ranks_before(
        (scores[first.1], first.1),
        (#[trigger] scores[other], other),
    ) by {
        assert(members.contains((scores[other], other)));
        let k = choose|k: int| 0 <= k < members.len() && members[k] == (scores[other], other);
        assert(k != 0);
        assert(ranks_before(members[0], members[k]));
    }
}

} // verus!
