//! Face embeddings and the distance between two of them.
//!
//! A component is a fixed-point number: the integer `EMBEDDING_ONE` stands
//! for 1.0. The metric is the squared Euclidean distance, computed exactly.
//! Where two embeddings differ in length, the shorter one counts as zero in
//! the places it lacks.

use vstd::prelude::*;

verus! {

/// The fixed-point integer that stands for the component 1.0.
pub const EMBEDDING_ONE: i32 = 1_000_000;

/// The largest square of a difference of two components.
pub const MAX_SQUARED_GAP: u128 = 18_446_744_065_119_617_025;

/// A point in feature space.
#[derive(Debug, PartialEq, Eq)]
pub struct Embedding {
    pub values: Vec<i32>,
}

impl View for Embedding {
    type V = Seq<i32>;

    open spec fn view(&self) -> Seq<i32> {
        self.values@
    }
}

impl Clone for Embedding {
    fn clone(&self) -> (res: Self)
        ensures
            res@ == self@,
    {
        Embedding { values: self.values.clone() }
    }
}

/// The component of `e` at `i`; zero past its end.
pub open spec fn component(e: Seq<i32>, i: int) -> int {
    if 0 <= i < e.len() {
        e[i] as int
    } else {
        0
    }
}

/// The square of the difference of `a` and `b` at `i`.
pub open spec fn squared_gap(a: Seq<i32>, b: Seq<i32>, i: int) -> nat {
    let gap = component(a, i) - component(b, i);
    (gap * gap) as nat
}

/// The sum of the squared gaps of `a` and `b` at the places below `n`.
pub open spec fn squared_gaps_below(a: Seq<i32>, b: Seq<i32>, n: nat) -> nat
    decreases n,
{
    if n == 0 {
        0
    } else {
        squared_gaps_below(a, b, (n - 1) as nat) + squared_gap(a, b, n - 1)
    }
}

/// The number of places of the longer of `a` and `b`.
pub open spec fn dimension(a: Seq<i32>, b: Seq<i32>) -> nat {
    if a.len() >= b.len() {
        a.len()
    } else {
        b.len()
    }
}

/// The squared Euclidean distance of `a` and `b`.
pub open spec fn squared_distance(a: Seq<i32>, b: Seq<i32>) -> nat {
    squared_gaps_below(a, b, dimension(a, b))
}

/// A squared gap is a square of a number below 2^32.
pub proof fn lemma_squared_gap_bound(a: Seq<i32>, b: Seq<i32>, i: int)
    ensures
        squared_gap(a, b, i) <= MAX_SQUARED_GAP,
{
    let gap = component(a, i) - component(b, i);
    assert(-4_294_967_295 <= gap <= 4_294_967_295);
    assert(gap * gap <= 18_446_744_065_119_617_025) by (nonlinear_arith)
        requires
            -4_294_967_295 <= gap <= 4_294_967_295,
    ;
    assert(gap * gap >= 0) by (nonlinear_arith);
}

/// The distance is symmetric.
pub proof fn lemma_distance_symmetric(a: Seq<i32>, b: Seq<i32>)
    ensures
        squared_distance(a, b) == squared_distance(b, a),
{
    lemma_gaps_symmetric(a, b, dimension(a, b));
}

/// The sum of the squared gaps is the same in both directions.
proof fn lemma_gaps_symmetric(a: Seq<i32>, b: Seq<i32>, n: nat)
    ensures
        squared_gaps_below(a, b, n) == squared_gaps_below(b, a, n),
    decreases n,
{
    if n > 0 {
        lemma_gaps_symmetric(a, b, (n - 1) as nat);
        let x = component(a, n - 1);
        let y = component(b, n - 1);
        assert((x - y) * (x - y) == (y - x) * (y - x)) by (nonlinear_arith);
    }
}

/// An embedding is at distance zero from itself.
pub proof fn lemma_distance_to_self(a: Seq<i32>)
    ensures
        squared_distance(a, a) == 0,
{
    lemma_gaps_to_self(a, a.len());
}

/// An embedding has no gap to itself.
proof fn lemma_gaps_to_self(a: Seq<i32>, n: nat)
    ensures
        squared_gaps_below(a, a, n) == 0,
    decreases n,
{
    if n > 0 {
        lemma_gaps_to_self(a, (n - 1) as nat);
    }
}

/// The absolute difference of two components.
fn gap(x: i32, y: i32) -> (res: u64)
    ensures
        res == if x >= y {
            x - y
        } else {
            y - x
        },
{
    if x >= y {
        (x as i64 - y as i64) as u64
    } else {
        (y as i64 - x as i64) as u64
    }
}

impl Embedding {
    /// The embedding with the components `values`.
    pub fn new(values: Vec<i32>) -> (res: Self)
        ensures
            res@ == values@,
    {
        Embedding { values }
    }

    /// The number of components.
    pub fn len(&self) -> (res: usize)
        ensures
            res == self@.len(),
    {
        self.values.len()
    }

    /// The component at `i`; zero past the end.
    fn at(&self, i: usize) -> (res: i32)
        ensures
            res == component(self@, i as int),
    {
        if i < self.values.len() {
            self.values[i]
        } else {
            0
        }
    }

    /// The squared Euclidean distance to `other`.
    pub fn distance_to(&self, other: &Embedding) -> (res: u128)
        ensures
            res == squared_distance(self@, other@),
    {
        let n = if self.values.len() >= other.values.len() {
            self.values.len()
        } else {
            other.values.len()
        };
        let mut sum: u128 = 0;
        let mut i: usize = 0;
        while i < n
            invariant
                i <= n,
                n == dimension(self@, other@),
                sum == squared_gaps_below(self@, other@, i as nat),
                sum <= i * MAX_SQUARED_GAP,
            decreases n - i,
        {
            let d = gap(self.at(i), other.at(i));
            proof {
                lemma_squared_gap_bound(self@, other@, i as int);
                let g = component(self@, i as int) - component(other@, i as int);
                assert(d * d == g * g) by (nonlinear_arith)
                    requires
                        d == g || d == -g,
                ;
                assert((i + 1) * MAX_SQUARED_GAP <= u128::MAX) by (nonlinear_arith)
                    requires
                        i + 1 <= 0x1_0000_0000_0000_0000,
                        MAX_SQUARED_GAP == 18_446_744_065_119_617_025,
                ;
                assert((i + 1) * MAX_SQUARED_GAP == i * MAX_SQUARED_GAP + MAX_SQUARED_GAP)
                    by (nonlinear_arith);
            }
            let square = (d as u128) * (d as u128);
            sum = sum + square;
            i += 1;
        }
        sum
    }
}

} // verus!
