//! Per-column height maps: a 16x16 grid of whole-block terrain heights,
//! derived once from the four landscape samples surrounding the column and
//! memoized so that every column is interpolated at most once.

use vstd::prelude::*;
use vstd::arithmetic::div_mod::lemma_fundamental_div_mod_converse;
use crate::landscape::Landscape;

verus! {

/// The weight a corner at offset 16*c (c is 0 or 1) contributes at local
/// offset v: the distance |v - 16*c| from that corner, so of two corners the
/// farther one weighs more. The terrain's shape depends on this orientation,
/// so it is fixed here rather than the conventional nearer-dominates one.
pub open spec fn interp_weight(c: int, v: int) -> int {
    if c == 0 {
        v
    } else {
        16 - v
    }
}

/// The interpolated whole-block height at local cell (x, y) of a tile whose
/// surrounding fixed-point corner samples are c00, c01, c10 and c11, corner
/// cab sitting at offset (16*a, 16*b). Corner cab is weighted by
/// |x - 16*a| * |y - 16*b|; the four weights total 256, and the further 256
/// in the divisor converts the fixed-point sample scale to whole blocks.
pub open spec fn spec_interp(c00: int, c01: int, c10: int, c11: int, x: int, y: int) -> int {
    (c00 * (interp_weight(0, x) * interp_weight(0, y)) + c01 * (interp_weight(0, x) * interp_weight(
        1,
        y,
    )) + c10 * (interp_weight(1, x) * interp_weight(0, y)) + c11 * (interp_weight(1, x)
        * interp_weight(1, y))) / 65536
}

/// True when the four corner columns around column (i, j) — that is,
/// (i, j) through (i+1, j+1) — all lie inside the landscape grid.
pub open spec fn spec_column_in_range(l: Landscape, i: int, j: int) -> bool {
    &&& 0 <= i && i + 1 < l.spec_width()
    &&& 0 <= j && j + 1 < l.spec_height()
}

/// The terrain surface height, in whole blocks, over local cell (x, y) of
/// column (i, j).
pub open spec fn spec_column_height(l: Landscape, i: int, j: int, x: int, y: int) -> int {
    spec_interp(
        l.spec_at(i, j) as int,
        l.spec_at(i, j + 1) as int,
        l.spec_at(i + 1, j) as int,
        l.spec_at(i + 1, j + 1) as int,
        x,
        y,
    )
}

/// A 16x16 grid of whole-block terrain heights covering one column, derived
/// once and never mutated.
pub struct HeightMap {
    data: Vec<u32>,
}

impl HeightMap {
    /// The stored heights, laid out row-major: cell (x, y) at slot x*16 + y.
    pub closed spec fn spec_data(&self) -> Seq<u32> {
        self.data@
    }

    /// The grid holds exactly one height per cell.
    pub open spec fn wf(&self) -> bool {
        self.spec_data().len() == 256
    }

    /// The height at local cell (x, y), in whole blocks.
    pub open spec fn spec_at(&self, x: int, y: int) -> int {
        self.spec_data()[x * 16 + y] as int
    }

    /// True when this grid holds exactly the interpolated heights of column
    /// (i, j) of landscape `l`.
    pub open spec fn matches_column(&self, l: Landscape, i: int, j: int) -> bool {
        &&& self.wf()
        &&& forall|x: int, y: int|
            0 <= x < 16 && 0 <= y < 16 ==> #[trigger] self.spec_at(x, y) == spec_column_height(
                l,
                i,
                j,
                x,
                y,
            )
    }

    /// Reads the height at local cell (x, y).
    pub fn at(&self, x: usize, y: usize) -> (h: u32)
        requires
            self.wf(),
            x < 16,
            y < 16,
        ensures
            h as int == self.spec_at(x as int, y as int),
    {
        self.data[x * 16 + y]
    }
}

/// Derives the height map covering column (i, j): every cell is the weighted
/// sum of the four surrounding landscape samples, truncated to whole blocks.
pub fn compute_height_map(l: &Landscape, i: i32, j: i32) -> (m: HeightMap)
    requires
        l.wf(),
        spec_column_in_range(*l, i as int, j as int),
    ensures
        m.matches_column(*l, i as int, j as int),
{
    let iu = i as usize;
    let ju = j as usize;
    let c00 = l.get((iu, ju)).unwrap();
    let c01 = l.get((iu, ju + 1)).unwrap();
    let c10 = l.get((iu + 1, ju)).unwrap();
    let c11 = l.get((iu + 1, ju + 1)).unwrap();
    let mut data: Vec<u32> = Vec::new();
    let mut x: usize = 0;
    while x < 16
        invariant
            x <= 16,
            data@.len() == x * 16,
            c00 == l.spec_at(i as int, j as int),
            c01 == l.spec_at(i as int, j as int + 1),
            c10 == l.spec_at(i as int + 1, j as int),
            c11 == l.spec_at(i as int + 1, j as int + 1),
            forall|q: int|
                0 <= q < data@.len() ==> #[trigger] data@[q] as int == spec_column_height(
                    *l,
                    i as int,
                    j as int,
                    q / 16,
                    q % 16,
                ),
        decreases 16 - x,
    {
        let mut y: usize = 0;
        while y < 16
            invariant
                x < 16,
                y <= 16,
                data@.len() == x * 16 + y,
                c00 == l.spec_at(i as int, j as int),
                c01 == l.spec_at(i as int, j as int + 1),
                c10 == l.spec_at(i as int + 1, j as int),
                c11 == l.spec_at(i as int + 1, j as int + 1),
                forall|q: int|
                    0 <= q < data@.len() ==> #[trigger] data@[q] as int == spec_column_height(
                        *l,
                        i as int,
                        j as int,
                        q / 16,
                        q % 16,
                    ),
            decreases 16 - y,
        {
            let wx0: u64 = x as u64;
            let wx1: u64 = (16 - x) as u64;
            let wy0: u64 = y as u64;
            let wy1: u64 = (16 - y) as u64;
            proof {
                assert(wx0 as int * wy0 as int <= 256 && wx0 as int * wy1 as int <= 256
                    && wx1 as int * wy0 as int <= 256 && wx1 as int * wy1 as int <= 256) by (nonlinear_arith)
                    requires
                        wx0 <= 16u64,
                        wx1 <= 16u64,
                        wy0 <= 16u64,
                        wy1 <= 16u64,
                ;
                assert(c00 as int * (wx0 as int * wy0 as int) <= 0xffff_ffff * 256
                    && c01 as int * (wx0 as int * wy1 as int) <= 0xffff_ffff * 256 && c10 as int * (
                wx1 as int * wy0 as int) <= 0xffff_ffff * 256 && c11 as int * (wx1 as int
                    * wy1 as int) <= 0xffff_ffff * 256) by (nonlinear_arith)
                    requires
                        c00 <= 0xffff_ffffu32,
                        c01 <= 0xffff_ffffu32,
                        c10 <= 0xffff_ffffu32,
                        c11 <= 0xffff_ffffu32,
                        wx0 <= 16u64,
                        wx1 <= 16u64,
                        wy0 <= 16u64,
                        wy1 <= 16u64,
                ;
            }
            let sum: u64 = c00 as u64 * (wx0 * wy0) + c01 as u64 * (wx0 * wy1) + c10 as u64 * (wx1
                * wy0) + c11 as u64 * (wx1 * wy1);
            let h: u32 = (sum / 65536) as u32;
            proof {
                lemma_fundamental_div_mod_converse(
                    x as int * 16 + y as int,
                    16,
                    x as int,
                    y as int,
                );
            }
            data.push(h);
            y = y + 1;
        }
        x = x + 1;
    }
    let m = HeightMap { data };
    assert forall|xx: int, yy: int| 0 <= xx < 16 && 0 <= yy < 16 implies #[trigger] m.spec_at(
        xx,
        yy,
    ) == spec_column_height(*l, i as int, j as int, xx, yy) by {
        lemma_fundamental_div_mod_converse(xx * 16 + yy, 16, xx, yy);
    }
    m
}

struct HmEntry {
    i: i32,
    j: i32,
    map: HeightMap,
}

/// A cached entry pairs an in-range column key with exactly the height map
/// that column's landscape samples determine.
spec fn hm_entry_ok(l: Landscape, e: HmEntry) -> bool {
    &&& spec_column_in_range(l, e.i as int, e.j as int)
    &&& e.map.matches_column(l, e.i as int, e.j as int)
}

/// Memoizes one interpolated height map per column: a given column is
/// derived at most once for the cache's lifetime and never mutated after.
pub struct HeightMapCache {
    entries: Vec<HmEntry>,
}

impl HeightMapCache {
    /// Against landscape `l`, every cached grid is the one its column
    /// determines, and no column is stored twice.
    pub closed spec fn wf(&self, l: Landscape) -> bool {
        &&& forall|n: int|
            0 <= n < self.entries@.len() ==> hm_entry_ok(l, #[trigger] self.entries@[n])
        &&& forall|n: int, m: int|
            0 <= n < m < self.entries@.len() ==> !((#[trigger] self.entries@[n]).i == (
            #[trigger] self.entries@[m]).i && self.entries@[n].j == self.entries@[m].j)
    }

    /// Creates an empty cache, coherent with any landscape.
    pub fn new() -> (c: HeightMapCache)
        ensures
            forall|l: Landscape| #[trigger] c.wf(l),
    {
        HeightMapCache { entries: Vec::new() }
    }

    /// Looks the column up among the cached entries.
    fn find(&self, i: i32, j: i32) -> (r: Option<usize>)
        ensures
            r matches Some(t) ==> t < self.entries@.len() && self.entries@[t as int].i == i
                && self.entries@[t as int].j == j,
            r is None ==> forall|n: int|
                0 <= n < self.entries@.len() ==> !((#[trigger] self.entries@[n]).i == i
                    && self.entries@[n].j == j),
    {
        let len = self.entries.len();
        let mut t: usize = 0;
        while t < len
            invariant
                t <= len,
                len == self.entries@.len(),
                forall|n: int|
                    0 <= n < t ==> !((#[trigger] self.entries@[n]).i == i && self.entries@[n].j
                        == j),
            decreases len - t,
        {
            if self.entries[t].i == i && self.entries[t].j == j {
                return Some(t);
            }
            t = t + 1;
        }
        None
    }

    /// Returns the height map for column (i, j), deriving and caching it on
    /// the first request for that column and reusing the stored grid ever
    /// after.
    pub fn get_or_compute<'a>(&'a mut self, l: &Landscape, i: i32, j: i32) -> (m: &'a HeightMap)
        requires
            old(self).wf(*l),
            l.wf(),
            spec_column_in_range(*l, i as int, j as int),
        ensures
            final(self).wf(*l),
            m.matches_column(*l, i as int, j as int),
    {
        if let Some(t) = self.find(i, j) {
            return &self.entries[t].map;
        }
        let map = compute_height_map(l, i, j);
        self.entries.push(HmEntry { i, j, map });
        let t = self.entries.len() - 1;
        &self.entries[t].map
    }
}

} // verus!
