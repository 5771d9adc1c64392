//! The enrolled persons, in order of enrolment, and the search for the one
//! nearest to a query embedding.
//!
//! Labels need not be unique: each entry is a candidate of its own. Where
//! several entries are at the minimum distance, the one enrolled first is the
//! match.

use vstd::prelude::*;
use crate::embedding::{squared_distance, Embedding};

verus! {

/// A label with a reference embedding for it.
#[derive(Debug, PartialEq, Eq)]
pub struct Person {
    pub label: String,
    pub embedding: Embedding,
}

/// What a [`Person`] is, as plain values.
pub ghost struct PersonView {
    pub label: Seq<char>,
    pub embedding: Seq<i32>,
}

impl View for Person {
    type V = PersonView;

    open spec fn view(&self) -> PersonView {
        PersonView { label: self.label@, embedding: self.embedding@ }
    }
}

impl Clone for Person {
    fn clone(&self) -> (res: Self)
        ensures
            res@ == self@,
    {
        Person { label: self.label.clone(), embedding: self.embedding.clone() }
    }
}

/// The entry nearest to a query, with its squared distance from the query.
#[derive(Debug, PartialEq, Eq)]
pub struct Match {
    pub person: Person,
    pub distance: u128,
}

/// What a [`Match`] is, as plain values.
pub ghost struct MatchView {
    pub person: PersonView,
    pub distance: nat,
}

impl View for Match {
    type V = MatchView;

    open spec fn view(&self) -> MatchView {
        MatchView { person: self.person@, distance: self.distance as nat }
    }
}

/// The squared distance from the entry at `i` to `query`.
pub open spec fn distance_at(entries: Seq<PersonView>, query: Seq<i32>, i: int) -> nat {
    squared_distance(entries[i].embedding, query)
}

/// Whether the entry at `i` is the match for `query`: no entry is nearer, and
/// every entry before it is farther.
pub open spec fn is_nearest(entries: Seq<PersonView>, query: Seq<i32>, i: int) -> bool {
    &&& 0 <= i < entries.len()
    &&& forall|j: int|
        0 <= j < entries.len() ==> distance_at(entries, query, i) <= #[trigger] distance_at(
            entries,
            query,
            j,
        )
    &&& forall|j: int|
        0 <= j < i ==> distance_at(entries, query, i) < #[trigger] distance_at(entries, query, j)
}

/// The index of the match for `query`. It is meaningful where there is an
/// entry.
pub open spec fn nearest_index(entries: Seq<PersonView>, query: Seq<i32>) -> int {
    choose|i: int| is_nearest(entries, query, i)
}

/// The match for `query` among `entries`; none where there is no entry.
pub open spec fn best_match(entries: Seq<PersonView>, query: Seq<i32>) -> Option<MatchView> {
    if entries.len() == 0 {
        None
    } else {
        let i = nearest_index(entries, query);
        Some(MatchView { person: entries[i], distance: distance_at(entries, query, i) })
    }
}

/// At most one entry is the match.
pub proof fn lemma_nearest_unique(entries: Seq<PersonView>, query: Seq<i32>, i: int, j: int)
    requires
        is_nearest(entries, query, i),
        is_nearest(entries, query, j),
    ensures
        i == j,
{
    if i < j {
        assert(distance_at(entries, query, j) < distance_at(entries, query, i));
        assert(distance_at(entries, query, i) <= distance_at(entries, query, j));
    } else if j < i {
        assert(distance_at(entries, query, i) < distance_at(entries, query, j));
        assert(distance_at(entries, query, j) <= distance_at(entries, query, i));
    }
}

/// An entry that is the match is the one that `nearest_index` names.
pub proof fn lemma_nearest_is_index(entries: Seq<PersonView>, query: Seq<i32>, i: int)
    requires
        is_nearest(entries, query, i),
    ensures
        nearest_index(entries, query) == i,
        best_match(entries, query) == Some(
            MatchView { person: entries[i], distance: distance_at(entries, query, i) },
        ),
{
    lemma_nearest_unique(entries, query, i, nearest_index(entries, query));
}

/// Where there is an entry, one of them is the match.
pub proof fn lemma_nearest_exists(entries: Seq<PersonView>, query: Seq<i32>)
    requires
        entries.len() > 0,
    ensures
        is_nearest(entries, query, nearest_index(entries, query)),
    decreases entries.len(),
{
    if entries.len() == 1 {
        assert(is_nearest(entries, query, 0));
    } else {
        let front = entries.drop_last();
        let last = entries.len() - 1;
        lemma_nearest_exists(front, query);
        let i = nearest_index(front, query);
        assert forall|j: int| 0 <= j < front.len() implies distance_at(front, query, j)
            == distance_at(entries, query, j) by {
            assert(front[j] == entries[j]);
        }
        if distance_at(entries, query, last) < distance_at(entries, query, i) {
            assert forall|j: int| 0 <= j < entries.len() implies distance_at(entries, query, last)
                <= #[trigger] distance_at(entries, query, j) by {
                if j < last {
                    assert(distance_at(front, query, i) <= distance_at(front, query, j));
                }
            }
            assert forall|j: int| 0 <= j < last implies distance_at(entries, query, last)
                < #[trigger] distance_at(entries, query, j) by {
                assert(distance_at(front, query, i) <= distance_at(front, query, j));
            }
            assert(is_nearest(entries, query, last));
        } else {
            assert forall|j: int| 0 <= j < entries.len() implies distance_at(entries, query, i)
                <= #[trigger] distance_at(entries, query, j) by {
                if j < last {
                    assert(distance_at(front, query, i) <= distance_at(front, query, j));
                }
            }
            assert forall|j: int| 0 <= j < i implies distance_at(entries, query, i)
                < #[trigger] distance_at(entries, query, j) by {
                assert(distance_at(front, query, i) < distance_at(front, query, j));
            }
            assert(is_nearest(entries, query, i));
        }
    }
}

/// The persons enrolled so far.
pub struct PersonRegistry {
    entries: Vec<Person>,
}

impl View for PersonRegistry {
    type V = Seq<PersonView>;

    closed spec fn view(&self) -> Seq<PersonView> {
        self.entries@.map_values(|p: Person| p@)
    }
}

impl PersonRegistry {
    /// A registry without entries.
    pub fn new() -> (res: Self)
        ensures
            res@ == Seq::<PersonView>::empty(),
    {
        let res = PersonRegistry { entries: Vec::new() };
        assert(res@ =~= Seq::<PersonView>::empty());
        res
    }

    /// The number of entries.
    pub fn len(&self) -> (res: usize)
        ensures
            res == self@.len(),
    {
        self.entries.len()
    }

    /// Whether there is no entry.
    pub fn is_empty(&self) -> (res: bool)
        ensures
            res == (self@.len() == 0),
    {
        self.entries.len() == 0
    }

    /// The entry at `index`.
    pub fn get(&self, index: usize) -> (res: Option<&Person>)
        ensures
            res is Some <==> index < self@.len(),
            res matches Some(p) ==> p@ == self@[index as int],
    {
        if index < self.entries.len() {
            Some(&self.entries[index])
        } else {
            None
        }
    }

    /// Appends the pair as a new entry, whatever is enrolled already.
    pub fn enroll(&mut self, label: String, embedding: Embedding)
        ensures
            final(self)@ == old(self)@.push(PersonView { label: label@, embedding: embedding@ }),
    {
        let person = Person { label, embedding };
        self.entries.push(person);
        assert(self@ =~= old(self)@.push(person@));
    }

    /// Removes every entry.
    pub fn clear(&mut self)
        ensures
            final(self)@ == Seq::<PersonView>::empty(),
    {
        self.entries.clear();
        assert(self@ =~= Seq::<PersonView>::empty());
    }

    /// The index of the match for `query`.
    pub fn nearest(&self, query: &Embedding) -> (res: Option<usize>)
        ensures
            res is None <==> self@.len() == 0,
            res matches Some(i) ==> is_nearest(self@, query@, i as int),
    {
        if self.entries.len() == 0 {
            return None;
        }
        let mut best: usize = 0;
        let mut best_distance: u128 = self.entries[0].embedding.distance_to(query);
        let mut i: usize = 1;
        while i < self.entries.len()
            invariant
                1 <= i <= self.entries.len(),
                self@.len() == self.entries.len(),
                best < i,
                best_distance == distance_at(self@, query@, best as int),
                forall|j: int|
                    0 <= j < i ==> best_distance <= #[trigger] distance_at(self@, query@, j),
                forall|j: int|
                    0 <= j < best ==> best_distance < #[trigger] distance_at(self@, query@, j),
            decreases self.entries.len() - i,
        {
            let distance = self.entries[i].embedding.distance_to(query);
            assert(distance == distance_at(self@, query@, i as int));
            if distance < best_distance {
                best = i;
                best_distance = distance;
            }
            i += 1;
        }
        Some(best)
    }

    /// The entry nearest to `query`, with its distance; none where nothing is
    /// enrolled.
    pub fn best_match(&self, query: &Embedding) -> (res: Option<Match>)
        ensures
            match res {
                Some(m) => best_match(self@, query@) == Some(m@),
                None => best_match(self@, query@) is None,
            },
    {
        match self.nearest(query) {
            None => None,
            Some(i) => {
                let person = self.entries[i].clone();
                let distance = person.embedding.distance_to(query);
                proof {
                    lemma_nearest_is_index(self@, query@, i as int);
                }
                Some(Match { person, distance })
            },
        }
    }
}

} // verus!
