//! Bounding boxes and the choice of the primary face among the detector's
//! candidates.
//!
//! The primary face is the candidate of highest confidence. Among candidates
//! of equal confidence the one of largest area wins, and among those the one
//! that the detector reported first.

use vstd::prelude::*;

verus! {

/// The confidence that stands for 1.0: a confidence is counted in millionths.
pub const CONFIDENCE_ONE: u32 = 1_000_000;

/// A rectangle around a face, with the detector's confidence in it.
#[derive(Clone, Copy, Debug, PartialEq, Eq, Structural)]
pub struct BoundingBox {
    pub x: i32,
    pub y: i32,
    pub width: u32,
    pub height: u32,
    /// In millionths, from 0 to `CONFIDENCE_ONE`.
    pub confidence: u32,
}

impl BoundingBox {
    /// Whether the confidence lies in the unit interval.
    pub open spec fn wf(&self) -> bool {
        self.confidence <= CONFIDENCE_ONE
    }

    /// The area of the rectangle.
    pub open spec fn spec_area(&self) -> nat {
        (self.width * self.height) as nat
    }

    /// The box with these fields, unless the confidence exceeds
    /// `CONFIDENCE_ONE`.
    pub fn new(x: i32, y: i32, width: u32, height: u32, confidence: u32) -> (res: Option<Self>)
        ensures
            res == if confidence <= CONFIDENCE_ONE {
                Some(BoundingBox { x, y, width, height, confidence })
            } else {
                None
            },
    {
        if confidence <= CONFIDENCE_ONE {
            Some(BoundingBox { x, y, width, height, confidence })
        } else {
            None
        }
    }

    /// The area of the rectangle.
    pub fn area(&self) -> (res: u64)
        ensures
            res == self.spec_area(),
    {
        assert(self.width * self.height <= 0xFFFF_FFFF * 0xFFFF_FFFF) by (nonlinear_arith)
            requires
                self.width <= 0xFFFF_FFFF,
                self.height <= 0xFFFF_FFFF,
        ;
        (self.width as u64) * (self.height as u64)
    }

    /// Whether this box is preferred to `other`: by confidence, then by area.
    pub fn beats(&self, other: &BoundingBox) -> (res: bool)
        ensures
            res == outranks(*self, *other),
    {
        self.confidence > other.confidence || (self.confidence == other.confidence && self.area()
            > other.area())
    }
}

/// Whether `a` is preferred to `b`: by confidence, then by area.
pub open spec fn outranks(a: BoundingBox, b: BoundingBox) -> bool {
    a.confidence > b.confidence || (a.confidence == b.confidence && a.spec_area() > b.spec_area())
}

/// Whether the candidate at `i` is the primary face: no candidate is
/// preferred to it, and it is preferred to every candidate before it.
pub open spec fn is_primary(candidates: Seq<BoundingBox>, i: int) -> bool {
    &&& 0 <= i < candidates.len()
    &&& forall|j: int| 0 <= j < candidates.len() ==> !outranks(#[trigger] candidates[j], candidates[i])
    &&& forall|j: int| 0 <= j < i ==> outranks(candidates[i], #[trigger] candidates[j])
}

/// At most one candidate is the primary face.
pub proof fn lemma_primary_unique(candidates: Seq<BoundingBox>, i: int, j: int)
    requires
        is_primary(candidates, i),
        is_primary(candidates, j),
    ensures
        i == j,
{
    if i < j {
        assert(outranks(candidates[j], candidates[i]));
    } else if j < i {
        assert(outranks(candidates[i], candidates[j]));
    }
}

/// The index of the primary face. It is meaningful where there is a
/// candidate.
pub open spec fn primary_index(candidates: Seq<BoundingBox>) -> int {
    choose|i: int| is_primary(candidates, i)
}

/// A candidate that is the primary face is the one that `primary_index`
/// names.
pub proof fn lemma_primary_is_index(candidates: Seq<BoundingBox>, i: int)
    requires
        is_primary(candidates, i),
    ensures
        primary_index(candidates) == i,
{
    lemma_primary_unique(candidates, i, primary_index(candidates));
}

/// A candidate whose confidence exceeds that of every other candidate is the
/// primary face.
pub proof fn lemma_most_confident_is_primary(candidates: Seq<BoundingBox>, i: int)
    requires
        0 <= i < candidates.len(),
        forall|j: int|
            0 <= j < candidates.len() && j != i ==> (#[trigger] candidates[j]).confidence
                < candidates[i].confidence,
    ensures
        is_primary(candidates, i),
        primary_index(candidates) == i,
{
    assert(is_primary(candidates, i));
    lemma_primary_is_index(candidates, i);
}

/// The index of the primary face among `candidates`; none where there is no
/// candidate.
pub fn select_primary(candidates: &Vec<BoundingBox>) -> (res: Option<usize>)
    ensures
        res is None <==> candidates@.len() == 0,
        res matches Some(i) ==> is_primary(candidates@, i as int) && i == primary_index(
            candidates@,
        ),
{
    if candidates.len() == 0 {
        return None;
    }
    let mut best: usize = 0;
    let mut i: usize = 1;
    while i < candidates.len()
        invariant
            1 <= i <= candidates.len(),
            best < i,
            forall|j: int| 0 <= j < i ==> !outranks(#[trigger] candidates@[j], candidates@[best as int]),
            forall|j: int| 0 <= j < best ==> outranks(candidates@[best as int], #[trigger] candidates@[j]),
        decreases candidates.len() - i,
    {
        if candidates[i].beats(&candidates[best]) {
            proof {
                let old_best = candidates@[best as int];
                let new_best = candidates@[i as int];
                assert forall|j: int| 0 <= j < i implies outranks(new_best, #[trigger] candidates@[j]) by {
                    assert(!outranks(candidates@[j], old_best));
                }
            }
            best = i;
        }
        i += 1;
    }
    proof {
        lemma_primary_is_index(candidates@, best as int);
    }
    Some(best)
}

} // verus!
