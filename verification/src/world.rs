//! The world: the sole owner of one landscape, one height-map cache and one
//! chunk cache. Its one operation resolves a chunk coordinate to a chunk,
//! generating and caching on demand; terrain is static once the landscape is
//! fixed, so a cached chunk never changes.

use vstd::prelude::*;
use crate::chunk::{
    cube_x, cube_y, cube_z, in_cube, lemma_cube_decode, lemma_cube_encode, Block, Chunk,
};
use crate::height_map::{
    spec_column_height, spec_column_in_range, HeightMap, HeightMapCache,
};
use crate::landscape::Landscape;

verus! {

/// The one failure a chunk request can signal: the requested column's corner
/// samples fall outside the landscape grid.
#[derive(Clone, Copy, Debug, PartialEq, Eq, Structural)]
pub enum WorldError {
    ColumnOutOfBounds,
}

/// The block the terrain puts at cell (x, y, z) of chunk (i, j, k): stone
/// exactly where the cell lies below the interpolated surface of the chunk's
/// column (the chunk covers world heights k*16 to k*16 + 15), air elsewhere.
pub open spec fn spec_terrain_block(
    l: Landscape,
    i: int,
    j: int,
    k: int,
    x: int,
    y: int,
    z: int,
) -> Block {
    if z + k * 16 < spec_column_height(l, i, j, x, y) {
        Block::Stone
    } else {
        Block::Air
    }
}

/// True when `c` holds exactly the blocks the terrain determines for chunk
/// (i, j, k) of landscape `l`.
pub open spec fn chunk_matches(l: Landscape, i: int, j: int, k: int, c: Chunk) -> bool {
    &&& c.wf()
    &&& forall|x: int, y: int, z: int|
        in_cube(x, y, z) ==> #[trigger] c.spec_block(x, y, z) == spec_terrain_block(
            l,
            i,
            j,
            k,
            x,
            y,
            z,
        )
}

/// The block a dense chunk of vertical band `k` over height map `m` stores
/// at linear cell index `q`.
spec fn dense_cell(m: HeightMap, k: int, q: int) -> Block {
    if cube_z(q) + k * 16 < m.spec_at(cube_x(q), cube_y(q)) {
        Block::Stone
    } else {
        Block::Air
    }
}

/// Materializes the chunk of vertical band `k` over height map `m`:
/// collapsed to uniform air when the whole band lies above the surface, to
/// uniform stone when it lies wholly below, and dense otherwise.
fn generate_chunk(m: &HeightMap, k: i32) -> (c: Chunk)
    requires
        m.wf(),
    ensures
        c.wf(),
        forall|x: int, y: int, z: int|
            in_cube(x, y, z) ==> #[trigger] c.spec_block(x, y, z) == (if z + (k as int) * 16
                < m.spec_at(x, y) {
                Block::Stone
            } else {
                Block::Air
            }),
{
    let mut maxv: u32 = m.at(0, 0);
    let mut minv: u32 = m.at(0, 0);
    let mut x: usize = 0;
    while x < 16
        invariant
            x <= 16,
            m.wf(),
            forall|xx: int, yy: int|
                0 <= xx < x && 0 <= yy < 16 ==> minv <= #[trigger] m.spec_at(xx, yy) <= maxv,
        decreases 16 - x,
    {
        let mut y: usize = 0;
        while y < 16
            invariant
                x < 16,
                y <= 16,
                m.wf(),
                forall|xx: int, yy: int|
                    0 <= xx < x && 0 <= yy < 16 ==> minv <= #[trigger] m.spec_at(xx, yy) <= maxv,
                forall|yy: int| 0 <= yy < y ==> minv <= #[trigger] m.spec_at(x as int, yy) <= maxv,
            decreases 16 - y,
        {
            let h = m.at(x, y);
            if h > maxv {
                maxv = h;
            }
            if h < minv {
                minv = h;
            }
            y = y + 1;
        }
        x = x + 1;
    }
    let k16: i64 = (k as i64) * 16;
    if k16 > maxv as i64 {
        // The whole band floats above the highest surface cell: all air.
        Chunk::new_uniform(Block::Air)
    } else if k16 + 16 <= minv as i64 {
        // The whole band is buried below the lowest surface cell: all stone.
        Chunk::new_uniform(Block::Stone)
    } else {
        let mut data: Vec<Block> = Vec::new();
        let mut x: usize = 0;
        while x < 16
            invariant
                x <= 16,
                m.wf(),
                k16 == (k as int) * 16,
                data@.len() == x * 256,
                forall|q: int|
                    0 <= q < data@.len() ==> #[trigger] data@[q] == dense_cell(*m, k as int, q),
            decreases 16 - x,
        {
            let mut y: usize = 0;
            while y < 16
                invariant
                    x < 16,
                    y <= 16,
                    m.wf(),
                    k16 == (k as int) * 16,
                    data@.len() == x * 256 + y * 16,
                    forall|q: int|
                        0 <= q < data@.len() ==> #[trigger] data@[q] == dense_cell(*m, k as int, q),
                decreases 16 - y,
            {
                let h: i64 = m.at(x, y) as i64 - k16;
                let mut z: usize = 0;
                while z < 16
                    invariant
                        x < 16,
                        y < 16,
                        z <= 16,
                        m.wf(),
                        k16 == (k as int) * 16,
                        h == m.spec_at(x as int, y as int) - (k as int) * 16,
                        data@.len() == x * 256 + y * 16 + z,
                        forall|q: int|
                            0 <= q < data@.len() ==> #[trigger] data@[q] == dense_cell(
                                *m,
                                k as int,
                                q,
                            ),
                    decreases 16 - z,
                {
                    let b = if (z as i64) < h {
                        Block::Stone
                    } else {
                        Block::Air
                    };
                    proof {
                        lemma_cube_encode(x as int, y as int, z as int);
                    }
                    data.push(b);
                    z = z + 1;
                }
                y = y + 1;
            }
            x = x + 1;
        }
        let c = Chunk::new_with_data(data);
        assert forall|xx: int, yy: int, zz: int| in_cube(xx, yy, zz) implies #[trigger] c.spec_block(
            xx,
            yy,
            zz,
        ) == (if zz + (k as int) * 16 < m.spec_at(xx, yy) {
            Block::Stone
        } else {
            Block::Air
        }) by {
            lemma_cube_encode(xx, yy, zz);
        }
        c
    }
}

struct ChunkEntry {
    i: i32,
    j: i32,
    k: i32,
    chunk: Chunk,
}

/// A cached entry pairs an in-range coordinate with exactly the chunk the
/// terrain determines there.
spec fn chunk_entry_ok(l: Landscape, e: ChunkEntry) -> bool {
    &&& spec_column_in_range(l, e.i as int, e.j as int)
    &&& chunk_matches(l, e.i as int, e.j as int, e.k as int, e.chunk)
}

/// Memoizes one materialized chunk per coordinate: a given coordinate is
/// generated at most once for the cache's lifetime and never mutated after.
pub struct ChunkCache {
    entries: Vec<ChunkEntry>,
}

impl ChunkCache {
    /// Against landscape `l`, every cached chunk is the one its coordinate
    /// determines, and no coordinate is stored twice.
    pub closed spec fn wf(&self, l: Landscape) -> bool {
        &&& forall|n: int|
            0 <= n < self.entries@.len() ==> chunk_entry_ok(l, #[trigger] self.entries@[n])
        &&& forall|n: int, m: int|
            0 <= n < m < self.entries@.len() ==> !((#[trigger] self.entries@[n]).i == (
            #[trigger] self.entries@[m]).i && self.entries@[n].j == self.entries@[m].j
                && self.entries@[n].k == self.entries@[m].k)
    }

    fn new() -> (c: ChunkCache)
        ensures
            forall|l: Landscape| #[trigger] c.wf(l),
    {
        ChunkCache { entries: Vec::new() }
    }

    /// Looks the coordinate up among the cached entries.
    fn find(&self, i: i32, j: i32, k: i32) -> (r: Option<usize>)
        ensures
            r matches Some(t) ==> t < self.entries@.len() && self.entries@[t as int].i == i
                && self.entries@[t as int].j == j && self.entries@[t as int].k == k,
            r is None ==> forall|n: int|
                0 <= n < self.entries@.len() ==> !((#[trigger] self.entries@[n]).i == i
                    && self.entries@[n].j == j && self.entries@[n].k == k),
    {
        let len = self.entries.len();
        let mut t: usize = 0;
        while t < len
            invariant
                t <= len,
                len == self.entries@.len(),
                forall|n: int|
                    0 <= n < t ==> !((#[trigger] self.entries@[n]).i == i && self.entries@[n].j == j
                        && self.entries@[n].k == k),
            decreases len - t,
        {
            if self.entries[t].i == i && self.entries[t].j == j && self.entries[t].k == k {
                return Some(t);
            }
            t = t + 1;
        }
        None
    }
}

/// The on-demand terrain source composing landscape, height-map cache and
/// chunk cache. It is the sole owner of all three.
pub struct World {
    landscape: Landscape,
    height_map_cache: HeightMapCache,
    chunk_cache: ChunkCache,
}

impl World {
    /// The landscape this world serves terrain from; fixed at construction.
    pub closed spec fn spec_landscape(&self) -> Landscape {
        self.landscape
    }

    /// The landscape is well formed and both caches agree with it.
    pub closed spec fn wf(&self) -> bool {
        &&& self.landscape.wf()
        &&& self.height_map_cache.wf(self.landscape)
        &&& self.chunk_cache.wf(self.landscape)
    }

    /// Creates a world over the given landscape, with both caches empty.
    pub fn new(landscape: Landscape) -> (w: World)
        requires
            landscape.wf(),
        ensures
            w.wf(),
            w.spec_landscape() == landscape,
    {
        World { landscape, height_map_cache: HeightMapCache::new(), chunk_cache: ChunkCache::new() }
    }

    /// Resolves a chunk coordinate to its chunk, generating and caching on
    /// demand: each coordinate is materialized at most once for the world's
    /// lifetime, and what is returned is always exactly the chunk the
    /// landscape determines there. A request whose column lies outside the
    /// landscape's covered columns is rejected.
    pub fn get_chunk<'a>(&'a mut self, coord: (i32, i32, i32)) -> (r: Result<
        &'a Chunk,
        WorldError,
    >)
        requires
            old(self).wf(),
        ensures
            final(self).wf(),
            final(self).spec_landscape() == old(self).spec_landscape(),
            r is Ok <==> spec_column_in_range(
                old(self).spec_landscape(),
                coord.0 as int,
                coord.1 as int,
            ),
            r matches Ok(c) ==> chunk_matches(
                old(self).spec_landscape(),
                coord.0 as int,
                coord.1 as int,
                coord.2 as int,
                *c,
            ),
            r matches Err(e) ==> e == WorldError::ColumnOutOfBounds,
    {
        let (i, j, k) = coord;
        let (w, h) = self.landscape.dims();
        if !(i >= 0 && j >= 0 && (i as usize) + 1 < w && (j as usize) + 1 < h) {
            return Err(WorldError::ColumnOutOfBounds);
        }
        if let Some(t) = self.chunk_cache.find(i, j, k) {
            return Ok(&self.chunk_cache.entries[t].chunk);
        }
        let m = self.height_map_cache.get_or_compute(&self.landscape, i, j);
        let chunk = generate_chunk(m, k);
        self.chunk_cache.entries.push(ChunkEntry { i, j, k, chunk });
        let t = self.chunk_cache.entries.len() - 1;
        Ok(&self.chunk_cache.entries[t].chunk)
    }
}

/// Law: cache coherence. The landscape determines each chunk's content in
/// full, so any two chunks that match the same coordinate — say, what two
/// requests for that coordinate returned — hold the same block at every cell
/// and traverse identically.
pub proof fn lemma_cache_coherence(l: Landscape, i: int, j: int, k: int, c1: Chunk, c2: Chunk)
    requires
        chunk_matches(l, i, j, k, c1),
        chunk_matches(l, i, j, k, c2),
    ensures
        forall|x: int, y: int, z: int|
            in_cube(x, y, z) ==> #[trigger] c1.spec_block(x, y, z) == c2.spec_block(x, y, z),
        c1.blocks_seq() == c2.blocks_seq(),
{
    assert forall|n: int| 0 <= n < 4096 implies c1.blocks_seq()[n] == c2.blocks_seq()[n] by {
        lemma_cube_decode(n);
    }
    assert(c1.blocks_seq() =~= c2.blocks_seq());
}

/// Law: classification correctness, upper half. A chunk whose band floor
/// k*16 lies strictly above every surface height of its column is air in
/// all 4096 traversal entries.
pub proof fn lemma_chunk_above_surface_all_air(
    l: Landscape,
    i: int,
    j: int,
    k: int,
    c: Chunk,
    bound: int,
)
    requires
        chunk_matches(l, i, j, k, c),
        forall|x: int, y: int|
            0 <= x < 16 && 0 <= y < 16 ==> #[trigger] spec_column_height(l, i, j, x, y) <= bound,
        k * 16 > bound,
    ensures
        forall|x: int, y: int, z: int|
            in_cube(x, y, z) ==> #[trigger] c.spec_block(x, y, z) == Block::Air,
        c.blocks_seq().len() == 4096,
        forall|n: int| 0 <= n < 4096 ==> (#[trigger] c.blocks_seq()[n]).1 == Block::Air,
{
    assert forall|n: int| 0 <= n < 4096 implies (#[trigger] c.blocks_seq()[n]).1 == Block::Air by {
        lemma_cube_decode(n);
    }
}

/// Law: classification correctness, lower half. A chunk whose band ceiling
/// (k+1)*16 lies at or below every surface height of its column is stone in
/// all 4096 traversal entries.
pub proof fn lemma_chunk_below_surface_all_stone(
    l: Landscape,
    i: int,
    j: int,
    k: int,
    c: Chunk,
    bound: int,
)
    requires
        chunk_matches(l, i, j, k, c),
        forall|x: int, y: int|
            0 <= x < 16 && 0 <= y < 16 ==> bound <= #[trigger] spec_column_height(l, i, j, x, y),
        (k + 1) * 16 <= bound,
    ensures
        forall|x: int, y: int, z: int|
            in_cube(x, y, z) ==> #[trigger] c.spec_block(x, y, z) == Block::Stone,
        c.blocks_seq().len() == 4096,
        forall|n: int| 0 <= n < 4096 ==> (#[trigger] c.blocks_seq()[n]).1 == Block::Stone,
{
    assert forall|n: int| 0 <= n < 4096 implies (#[trigger] c.blocks_seq()[n]).1
        == Block::Stone by {
        lemma_cube_decode(n);
    }
}

} // verus!
