//! The landscape: a seeded, coarse height field sampled at column
//! granularity, the ground truth for terrain elevation. Heights are
//! fixed-point numbers counted in units of 1/256 of a block, so a stored
//! value v stands for the height v / 256.

use vstd::prelude::*;
use crate::rng::{next_state, spec_rng_state};

verus! {

/// One block of height equals this many stored fixed-point units.
pub const HEIGHT_FP_SCALE: u32 = 256;

/// Generated samples lie below this fixed-point bound: 3 blocks.
pub const HEIGHT_FP_RANGE: u64 = 768;

/// The coarse seeded height field over a bounded grid of columns,
/// immutable after construction.
pub struct Landscape {
    height_data: Vec<u32>,
    dims: (usize, usize),
}

/// The t-th height sample a seed determines: a fixed-point value below
/// `HEIGHT_FP_RANGE`, standing for a height in [0, 3) blocks.
pub open spec fn spec_sample(seed: u64, t: nat) -> u32 {
    (spec_rng_state(seed, t + 1) % HEIGHT_FP_RANGE) as u32
}

/// The height data a seed determines: one generator sample per slot.
pub open spec fn spec_generated_data(seed: u64, n: nat) -> Seq<u32> {
    Seq::new(n, |t: int| spec_sample(seed, t as nat))
}

/// The landscape that `Landscape::generate` owes for a given seed and
/// dimensions.
pub open spec fn spec_generated_from(l: Landscape, seed: u64, dims: (usize, usize)) -> bool {
    &&& l.wf()
    &&& l.spec_width() == dims.0
    &&& l.spec_height() == dims.1
    &&& l.spec_data() == spec_generated_data(seed, (dims.0 * dims.1) as nat)
}

impl Landscape {
    /// The grid's extent along the first coordinate, in columns.
    pub closed spec fn spec_width(&self) -> int {
        self.dims.0 as int
    }

    /// The grid's extent along the second coordinate, in columns.
    pub closed spec fn spec_height(&self) -> int {
        self.dims.1 as int
    }

    /// The stored samples, laid out row-major with stride `spec_height()`.
    pub closed spec fn spec_data(&self) -> Seq<u32> {
        self.height_data@
    }

    /// One sample per column: the data's length matches the grid.
    pub open spec fn wf(&self) -> bool {
        self.spec_data().len() == self.spec_width() * self.spec_height()
    }

    /// True when column (x, y) lies inside the grid.
    pub open spec fn in_range(&self, x: int, y: int) -> bool {
        &&& 0 <= x < self.spec_width()
        &&& 0 <= y < self.spec_height()
    }

    /// The fixed-point sample stored for column (x, y).
    pub open spec fn spec_at(&self, x: int, y: int) -> u32 {
        self.spec_data()[x * self.spec_height() + y]
    }

    /// Deterministically fills a width-by-height grid with fixed-point
    /// samples in [0, 768), drawn from a generator seeded with `seed`.
    pub fn generate(seed: u64, dims: (usize, usize)) -> (l: Landscape)
        requires
            dims.0 * dims.1 <= usize::MAX,
        ensures
            spec_generated_from(l, seed, dims),
    {
        let (w, h) = dims;
        let n = w * h;
        let mut height_data: Vec<u32> = Vec::new();
        let mut state: u64 = seed;
        let mut t: usize = 0;
        while t < n
            invariant
                t <= n,
                height_data@.len() == t,
                state == spec_rng_state(seed, t as nat),
                forall|q: int| 0 <= q < t ==> height_data@[q] == spec_sample(seed, q as nat),
            decreases n - t,
        {
            state = next_state(state);
            let v: u32 = (state % HEIGHT_FP_RANGE) as u32;
            height_data.push(v);
            t = t + 1;
        }
        let l = Landscape { height_data, dims };
        proof {
            assert(l.spec_data() =~= spec_generated_data(seed, (dims.0 * dims.1) as nat));
        }
        l
    }

    /// Builds a landscape from given fixed-point samples, laid out row-major
    /// with stride `dims.1`; rejects data whose length does not match the
    /// grid.
    pub fn from_heights(height_data: Vec<u32>, dims: (usize, usize)) -> (r: Option<Landscape>)
        ensures
            r is Some <==> height_data@.len() == dims.0 * dims.1,
            r matches Some(l) ==> {
                &&& l.wf()
                &&& l.spec_width() == dims.0
                &&& l.spec_height() == dims.1
                &&& l.spec_data() == height_data@
            },
    {
        let len = height_data.len();
        if let Some(n) = dims.0.checked_mul(dims.1) {
            if len == n {
                return Some(Landscape { height_data, dims });
            }
        }
        None
    }

    /// The grid's dimensions, in columns.
    pub fn dims(&self) -> (d: (usize, usize))
        ensures
            d.0 == self.spec_width(),
            d.1 == self.spec_height(),
    {
        self.dims
    }

    /// Returns the sample at column (x, y) when the column lies inside the
    /// grid, and signals absence otherwise.
    pub fn get(&self, pos: (usize, usize)) -> (r: Option<u32>)
        requires
            self.wf(),
        ensures
            r is Some <==> self.in_range(pos.0 as int, pos.1 as int),
            self.in_range(pos.0 as int, pos.1 as int) ==> r == Some(
                self.spec_at(pos.0 as int, pos.1 as int),
            ),
    {
        let (x, y) = pos;
        let (dx, dy) = self.dims;
        if x < dx && y < dy {
            let len = self.height_data.len();
            proof {
                assert(x * dy + y < dx * dy) by (nonlinear_arith)
                    requires
                        x < dx,
                        y < dy,
                ;
                assert(x * dy + y < len);
            }
            let idx = x * dy + y;
            Some(self.height_data[idx])
        } else {
            None
        }
    }
}

/// Law: generation is deterministic. Two landscapes generated from the same
/// seed and dimensions hold identical height data, and so agree on every
/// sample.
pub proof fn lemma_generate_deterministic(
    a: Landscape,
    b: Landscape,
    seed: u64,
    dims: (usize, usize),
)
    requires
        spec_generated_from(a, seed, dims),
        spec_generated_from(b, seed, dims),
    ensures
        a.spec_data() == b.spec_data(),
        forall|x: int, y: int| #[trigger] a.spec_at(x, y) == b.spec_at(x, y),
{
}

} // verus!
