//! Named byte buffers that grow by appending. A large file is uploaded in
//! pieces and read back whole.
//!
//! A name that was never appended to names the empty buffer.

use vstd::prelude::*;

verus! {

/// The name of the buffer that holds the face detector.
pub const FACE_DETECTION: &'static str = "face-detection";

/// The name of the buffer that holds the face-embedding extractor.
pub const FACE_RECOGNITION: &'static str = "face-recognition";

/// One named buffer.
struct Blob {
    name: String,
    bytes: Vec<u8>,
}

/// The buffers, each under its name.
pub struct ChunkStore {
    blobs: Vec<Blob>,
}

/// The pieces `chunks`, one after the other.
pub open spec fn concatenation(chunks: Seq<Seq<u8>>) -> Seq<u8>
    decreases chunks.len(),
{
    if chunks.len() == 0 {
        Seq::empty()
    } else {
        concatenation(chunks.drop_last()) + chunks.last()
    }
}

impl ChunkStore {
    /// The bytes of the buffer `name`.
    pub closed spec fn blob(&self, name: Seq<char>) -> Seq<u8> {
        match self.first_named(name) {
            Some(i) => self.blobs@[i].bytes@,
            None => Seq::empty(),
        }
    }

    /// The index of the first buffer called `name`.
    spec fn first_named(&self, name: Seq<char>) -> Option<int> {
        if exists|i: int| self.is_first_named(name, i) {
            Some(choose|i: int| self.is_first_named(name, i))
        } else {
            None
        }
    }

    /// Whether the buffer at `i` is the first one called `name`.
    spec fn is_first_named(&self, name: Seq<char>, i: int) -> bool {
        &&& 0 <= i < self.blobs@.len()
        &&& self.blobs@[i].name@ == name
        &&& forall|j: int| 0 <= j < i ==> (#[trigger] self.blobs@[j]).name@ != name
    }

    /// The first buffer called `name` is the one that `first_named` gives.
    proof fn lemma_first_named(&self, name: Seq<char>, i: int)
        requires
            self.is_first_named(name, i),
        ensures
            self.first_named(name) == Some(i),
    {
        let k = choose|k: int| self.is_first_named(name, k);
        if k < i {
            assert(self.blobs@[k].name@ != name);
        } else if i < k {
            assert(self.blobs@[i].name@ != name);
        }
    }

    /// Where no buffer is called `name`, `first_named` gives none.
    proof fn lemma_not_named(&self, name: Seq<char>)
        requires
            forall|j: int| 0 <= j < self.blobs@.len() ==> (#[trigger] self.blobs@[j]).name@ != name,
        ensures
            self.first_named(name) is None,
    {
    }

    /// Whether `self` is `before` with `bytes` appended to the buffer `name`
    /// and every other buffer untouched.
    pub open spec fn is_append_of(&self, before: &ChunkStore, name: Seq<char>, bytes: Seq<u8>) -> bool {
        forall|n: Seq<char>| #[trigger]
            self.blob(n) == if n == name {
                before.blob(n) + bytes
            } else {
                before.blob(n)
            }
    }

    /// Whether `self` is `before` with the buffer `name` emptied and every
    /// other buffer untouched.
    pub open spec fn is_clear_of(&self, before: &ChunkStore, name: Seq<char>) -> bool {
        forall|n: Seq<char>| #[trigger]
            self.blob(n) == if n == name {
                Seq::<u8>::empty()
            } else {
                before.blob(n)
            }
    }

    /// A store in which every buffer is empty.
    pub fn new() -> (res: Self)
        ensures
            forall|n: Seq<char>| #[trigger] res.blob(n) == Seq::<u8>::empty(),
    {
        ChunkStore { blobs: Vec::new() }
    }

    /// The position of the first buffer called `name`.
    fn position(&self, name: &str) -> (res: Option<usize>)
        ensures
            match res {
                Some(i) => self.is_first_named(name@, i as int),
                None => forall|j: int|
                    0 <= j < self.blobs@.len() ==> (#[trigger] self.blobs@[j]).name@ != name@,
            },
    {
        let mut i: usize = 0;
        while i < self.blobs.len()
            invariant
                i <= self.blobs.len(),
                forall|j: int| 0 <= j < i ==> (#[trigger] self.blobs@[j]).name@ != name@,
            decreases self.blobs.len() - i,
        {
            if same_text(self.blobs[i].name.as_str(), name) {
                return Some(i);
            }
            i += 1;
        }
        None
    }

    /// Empties the buffer `name`.
    pub fn clear(&mut self, name: &str)
        ensures
            final(self).is_clear_of(old(self), name@),
    {
        match self.position(name) {
            Some(i) => {
                let kept = String::from_str(name);
                self.blobs.set(i, Blob { name: kept, bytes: Vec::new() });
                proof {
                    assert forall|n: Seq<char>| #[trigger]
                        self.blob(n) == if n == name@ {
                            Seq::<u8>::empty()
                        } else {
                            old(self).blob(n)
                        } by {
                        self.lemma_after_set(old(self), i as int, n);
                    }
                }
            },
            None => {
                proof {
                    self.lemma_not_named(name@);
                }
            },
        }
    }

    /// Appends `bytes` to the buffer `name`.
    pub fn append(&mut self, name: &str, bytes: &Vec<u8>)
        ensures
            final(self).is_append_of(old(self), name@, bytes@),
    {
        match self.position(name) {
            Some(i) => {
                let mut grown: Vec<u8> = Vec::new();
                grown.extend_from_slice(self.blobs[i].bytes.as_slice());
                grown.extend_from_slice(bytes.as_slice());
                let kept = String::from_str(name);
                self.blobs.set(i, Blob { name: kept, bytes: grown });
                proof {
                    old(self).lemma_first_named(name@, i as int);
                    assert forall|n: Seq<char>| #[trigger]
                        self.blob(n) == if n == name@ {
                            old(self).blob(n) + bytes@
                        } else {
                            old(self).blob(n)
                        } by {
                        self.lemma_after_set(old(self), i as int, n);
                    }
                }
            },
            None => {
                let mut fresh: Vec<u8> = Vec::new();
                fresh.extend_from_slice(bytes.as_slice());
                let kept = String::from_str(name);
                self.blobs.push(Blob { name: kept, bytes: fresh });
                proof {
                    old(self).lemma_not_named(name@);
                    let last = old(self).blobs@.len() as int;
                    assert forall|n: Seq<char>| #[trigger]
                        self.blob(n) == if n == name@ {
                            old(self).blob(n) + bytes@
                        } else {
                            old(self).blob(n)
                        } by {
                        if n == name@ {
                            assert(self.is_first_named(n, last));
                            self.lemma_first_named(n, last);
                            assert(Seq::<u8>::empty() + bytes@ =~= bytes@);
                        } else {
                            self.lemma_after_push(old(self), n);
                        }
                    }
                }
            },
        }
    }

    /// The whole buffer `name`.
    pub fn read(&self, name: &str) -> (res: Vec<u8>)
        ensures
            res@ == self.blob(name@),
    {
        match self.position(name) {
            Some(i) => {
                proof {
                    self.lemma_first_named(name@, i as int);
                }
                self.blobs[i].bytes.clone()
            },
            None => {
                proof {
                    self.lemma_not_named(name@);
                }
                Vec::new()
            },
        }
    }

    /// The length of the buffer `name`.
    pub fn len(&self, name: &str) -> (res: usize)
        ensures
            res == self.blob(name@).len(),
    {
        match self.position(name) {
            Some(i) => {
                proof {
                    self.lemma_first_named(name@, i as int);
                }
                self.blobs[i].bytes.len()
            },
            None => {
                proof {
                    self.lemma_not_named(name@);
                }
                0
            },
        }
    }

    /// After the buffer at `i` got new bytes under its old name, the first
    /// buffer of each name is where it was.
    proof fn lemma_after_set(&self, before: &ChunkStore, i: int, n: Seq<char>)
        requires
            0 <= i < before.blobs@.len(),
            self.blobs@.len() == before.blobs@.len(),
            self.blobs@[i].name@ == before.blobs@[i].name@,
            forall|j: int|
                0 <= j < before.blobs@.len() && j != i ==> self.blobs@[j] == before.blobs@[j],
        ensures
            self.first_named(n) == before.first_named(n),
            self.first_named(n) != Some(i) ==> self.blob(n) == before.blob(n),
            self.first_named(n) == Some(i) ==> self.blob(n) == self.blobs@[i].bytes@,
    {
        assert forall|k: int| self.is_first_named(n, k) == before.is_first_named(n, k) by {
            if 0 <= k < self.blobs@.len() {
                assert(self.blobs@[k].name@ == before.blobs@[k].name@);
                if self.is_first_named(n, k) {
                    assert forall|j: int| 0 <= j < k implies (#[trigger] before.blobs@[j]).name@
                        != n by {
                        assert(self.blobs@[j].name@ == before.blobs@[j].name@);
                    }
                }
                if before.is_first_named(n, k) {
                    assert forall|j: int| 0 <= j < k implies (#[trigger] self.blobs@[j]).name@
                        != n by {
                        assert(self.blobs@[j].name@ == before.blobs@[j].name@);
                    }
                }
            }
        }
        if exists|k: int| before.is_first_named(n, k) {
            let k = choose|k: int| before.is_first_named(n, k);
            assert(self.is_first_named(n, k));
            self.lemma_first_named(n, k);
            before.lemma_first_named(n, k);
        }
    }

    /// After a buffer of another name was added at the end, the buffer `n` is
    /// what it was.
    proof fn lemma_after_push(&self, before: &ChunkStore, n: Seq<char>)
        requires
            self.blobs@.len() == before.blobs@.len() + 1,
            self.blobs@.last().name@ != n,
            forall|j: int| 0 <= j < before.blobs@.len() ==> self.blobs@[j] == before.blobs@[j],
        ensures
            self.blob(n) == before.blob(n),
    {
        assert forall|k: int| self.is_first_named(n, k) == before.is_first_named(n, k) by {
            if 0 <= k < before.blobs@.len() {
                assert(self.blobs@[k] == before.blobs@[k]);
                if self.is_first_named(n, k) {
                    assert forall|j: int| 0 <= j < k implies (#[trigger] before.blobs@[j]).name@
                        != n by {
                        assert(self.blobs@[j] == before.blobs@[j]);
                    }
                }
                if before.is_first_named(n, k) {
                    assert forall|j: int| 0 <= j < k implies (#[trigger] self.blobs@[j]).name@
                        != n by {
                        assert(self.blobs@[j] == before.blobs@[j]);
                    }
                }
            } else if k == before.blobs@.len() {
                assert(self.blobs@[k] == self.blobs@.last());
            }
        }
        if exists|k: int| before.is_first_named(n, k) {
            let k = choose|k: int| before.is_first_named(n, k);
            assert(self.is_first_named(n, k));
            self.lemma_first_named(n, k);
            before.lemma_first_named(n, k);
        }
    }
}

/// A buffer that was cleared is empty, whatever was appended to it before.
pub proof fn lemma_cleared_is_empty(before: ChunkStore, after: ChunkStore, name: Seq<char>)
    requires
        after.is_clear_of(&before, name),
    ensures
        after.blob(name) == Seq::<u8>::empty(),
        forall|other: Seq<char>| other != name ==> #[trigger] after.blob(other) == before.blob(other),
{
}

/// Chunking loses nothing and keeps the order: after the pieces `chunks` were
/// appended to the buffer `name` one by one, `states[i + 1]` being the store
/// after the piece `i`, the buffer holds what it held at first and then the
/// pieces in their order, however the bytes were split into pieces. Every
/// other buffer is what it was.
pub proof fn lemma_appends_concatenate(
    states: Seq<ChunkStore>,
    name: Seq<char>,
    chunks: Seq<Seq<u8>>,
)
    requires
        states.len() == chunks.len() + 1,
        forall|i: int|
            #![trigger chunks[i]]
            0 <= i < chunks.len() ==> states[i + 1].is_append_of(&states[i], name, chunks[i]),
    ensures
        states.last().blob(name) == states[0].blob(name) + concatenation(chunks),
        forall|other: Seq<char>|
            other != name ==> #[trigger] states.last().blob(other) == states[0].blob(other),
    decreases chunks.len(),
{
    if chunks.len() == 0 {
        assert(states[0].blob(name) + concatenation(chunks) =~= states[0].blob(name));
    } else {
        let n = chunks.len() - 1;
        let front = chunks.drop_last();
        let before = states.drop_last();
        assert forall|i: int| #![trigger front[i]] 0 <= i < front.len() implies before[i
            + 1].is_append_of(&before[i], name, front[i]) by {
            assert(chunks[i] == front[i]);
        }
        lemma_appends_concatenate(before, name, front);
        assert(before.last() == states[n]);
        assert(states[n + 1].is_append_of(&states[n], name, chunks[n]));
        assert(states.last().blob(name) == states[n].blob(name) + chunks[n]);
        assert(states[0].blob(name) + concatenation(front) + chunks.last() =~= states[0].blob(name)
            + concatenation(chunks));
        assert forall|other: Seq<char>| other != name implies #[trigger] states.last().blob(other)
            == states[0].blob(other) by {
            assert(states[n + 1].blob(other) == states[n].blob(other));
            assert(before.last().blob(other) == before[0].blob(other));
        }
    }
}

/// Two ways of cutting the same bytes into pieces leave the same buffer.
pub proof fn lemma_split_is_irrelevant(
    first: Seq<ChunkStore>,
    second: Seq<ChunkStore>,
    name: Seq<char>,
    first_chunks: Seq<Seq<u8>>,
    second_chunks: Seq<Seq<u8>>,
)
    requires
        first.len() == first_chunks.len() + 1,
        second.len() == second_chunks.len() + 1,
        first[0].blob(name) == second[0].blob(name),
        concatenation(first_chunks) == concatenation(second_chunks),
        forall|i: int|
            #![trigger first_chunks[i]]
            0 <= i < first_chunks.len() ==> first[i + 1].is_append_of(
                &first[i],
                name,
                first_chunks[i],
            ),
        forall|i: int|
            #![trigger second_chunks[i]]
            0 <= i < second_chunks.len() ==> second[i + 1].is_append_of(
                &second[i],
                name,
                second_chunks[i],
            ),
    ensures
        first.last().blob(name) == second.last().blob(name),
{
    lemma_appends_concatenate(first, name, first_chunks);
    lemma_appends_concatenate(second, name, second_chunks);
}

/// Whether two strings hold the same text.
fn same_text(a: &str, b: &str) -> (res: bool)
    ensures
        res == (a@ == b@),
{
    let x = String::from_str(a);
    let y = String::from_str(b);
    x == y
}

} // verus!
