//! The chunk representation: a 16x16x16 volume of blocks, stored either as a
//! dense grid or collapsed to one repeated block, plus a restartable cursor
//! that enumerates all 4096 cells in a fixed order (x slowest, z fastest).

use vstd::prelude::*;
use vstd::arithmetic::div_mod::{
    lemma_fundamental_div_mod, lemma_fundamental_div_mod_converse, lemma_div_pos_is_pos,
    lemma_mod_bound,
};

verus! {

/// An atomic terrain material.
#[derive(Clone, Copy, Debug, PartialEq, Eq, Structural)]
pub enum Block {
    Stone,
    Air,
}

/// The linear index of cell (x, y, z) in a dense chunk's backing store:
/// x varies slowest and z fastest.
pub open spec fn cube_index(x: int, y: int, z: int) -> int {
    x * 256 + y * 16 + z
}

/// The x coordinate encoded in linear index `n`.
pub open spec fn cube_x(n: int) -> int {
    n / 256
}

/// The y coordinate encoded in linear index `n`.
pub open spec fn cube_y(n: int) -> int {
    (n % 256) / 16
}

/// The z coordinate encoded in linear index `n`.
pub open spec fn cube_z(n: int) -> int {
    n % 16
}

/// True when (x, y, z) lies inside the 16x16x16 coordinate cube.
pub open spec fn in_cube(x: int, y: int, z: int) -> bool {
    &&& 0 <= x < 16
    &&& 0 <= y < 16
    &&& 0 <= z < 16
}

/// A linear index below 4096 decodes to a cell of the cube, and encoding
/// that cell recovers the index.
pub proof fn lemma_cube_decode(n: int)
    requires
        0 <= n < 4096,
    ensures
        in_cube(cube_x(n), cube_y(n), cube_z(n)),
        cube_index(cube_x(n), cube_y(n), cube_z(n)) == n,
{
    let x = n / 256;
    let r = n % 256;
    lemma_fundamental_div_mod(n, 256);
    lemma_mod_bound(n, 256);
    lemma_div_pos_is_pos(n, 256);
    let y = r / 16;
    let z = r % 16;
    lemma_fundamental_div_mod(r, 16);
    lemma_mod_bound(r, 16);
    lemma_div_pos_is_pos(r, 16);
    lemma_fundamental_div_mod_converse(n, 16, 16 * x + y, z);
}

/// Encoding a cell of the cube as a linear index and decoding it again
/// recovers the cell.
pub proof fn lemma_cube_encode(x: int, y: int, z: int)
    requires
        in_cube(x, y, z),
    ensures
        0 <= cube_index(x, y, z) < 4096,
        cube_x(cube_index(x, y, z)) == x,
        cube_y(cube_index(x, y, z)) == y,
        cube_z(cube_index(x, y, z)) == z,
{
    let n = cube_index(x, y, z);
    lemma_fundamental_div_mod_converse(n, 256, x, 16 * y + z);
    lemma_fundamental_div_mod_converse(n % 256, 16, y, z);
    lemma_fundamental_div_mod_converse(n, 16, 16 * x + y, z);
}

enum ChunkData {
    Dense(Vec<Block>),
    Uniform(Block),
}

/// A 16x16x16 volume of blocks, the unit of generation and caching.
pub struct Chunk {
    data: ChunkData,
}

impl Chunk {
    /// A dense chunk carries exactly one block per cell of the cube.
    pub closed spec fn wf(&self) -> bool {
        match self.data {
            ChunkData::Dense(v) => v@.len() == 4096,
            ChunkData::Uniform(_) => true,
        }
    }

    /// The block held at cell (x, y, z).
    pub closed spec fn spec_block(&self, x: int, y: int, z: int) -> Block {
        match self.data {
            ChunkData::Dense(v) => v@[cube_index(x, y, z)],
            ChunkData::Uniform(b) => b,
        }
    }

    /// Builds a chunk whose 4096 cells all hold `block`, without
    /// materializing a dense grid.
    pub fn new_uniform(block: Block) -> (c: Chunk)
        ensures
            c.wf(),
            forall|x: int, y: int, z: int|
                in_cube(x, y, z) ==> #[trigger] c.spec_block(x, y, z) == block,
    {
        Chunk { data: ChunkData::Uniform(block) }
    }

    /// Builds a dense chunk from a grid of 4096 blocks, laid out with
    /// x varying slowest and z fastest.
    pub fn new_with_data(data: Vec<Block>) -> (c: Chunk)
        requires
            data@.len() == 4096,
        ensures
            c.wf(),
            forall|x: int, y: int, z: int|
                in_cube(x, y, z) ==> #[trigger] c.spec_block(x, y, z) == data@[cube_index(x, y, z)],
    {
        Chunk { data: ChunkData::Dense(data) }
    }

    /// The logical traversal of the chunk: the 4096 (position, block) pairs
    /// in cursor order, x varying slowest and z fastest.
    pub open spec fn blocks_seq(&self) -> Seq<((int, int, int), Block)> {
        Seq::new(
            4096,
            |n: int|
                (
                    (cube_x(n), cube_y(n), cube_z(n)),
                    self.spec_block(cube_x(n), cube_y(n), cube_z(n)),
                ),
        )
    }

    /// Reads the block at cell (x, y, z).
    pub fn block_at(&self, x: usize, y: usize, z: usize) -> (b: Block)
        requires
            self.wf(),
            x < 16,
            y < 16,
            z < 16,
        ensures
            b == self.spec_block(x as int, y as int, z as int),
    {
        match &self.data {
            ChunkData::Dense(v) => v[x * 256 + y * 16 + z],
            ChunkData::Uniform(b) => *b,
        }
    }

    /// Starts a fresh traversal over the chunk's coordinate cube.
    pub fn blocks<'a>(&'a self) -> (it: ChunkIterator<'a>)
        requires
            self.wf(),
        ensures
            it.inv(),
            it.spec_chunk() == *self,
            it.spec_pos() == 0,
    {
        ChunkIterator { chunk: self, pos: 0 }
    }
}

/// A finite cursor over the 4096 cells of a chunk, yielding each
/// (position, block) pair once, in the order of `Chunk::blocks_seq`.
pub struct ChunkIterator<'a> {
    chunk: &'a Chunk,
    pos: usize,
}

impl<'a> ChunkIterator<'a> {
    /// The chunk being traversed.
    pub closed spec fn spec_chunk(&self) -> Chunk {
        *self.chunk
    }

    /// How many entries the cursor has already yielded.
    pub closed spec fn spec_pos(&self) -> int {
        self.pos as int
    }

    /// The cursor stays within the traversed chunk's cube.
    pub open spec fn inv(&self) -> bool {
        &&& self.spec_chunk().wf()
        &&& 0 <= self.spec_pos() <= 4096
    }

    /// Yields the next (position, block) pair of the traversal, or nothing
    /// once all 4096 entries have been produced.
    pub fn next(&mut self) -> (r: Option<((usize, usize, usize), Block)>)
        requires
            old(self).inv(),
        ensures
            final(self).inv(),
            final(self).spec_chunk() == old(self).spec_chunk(),
            old(self).spec_pos() < 4096 ==> {
                &&& final(self).spec_pos() == old(self).spec_pos() + 1
                &&& r matches Some(((x, y, z), b)) && old(self).spec_chunk().blocks_seq()[old(
                    self,
                ).spec_pos()] == (((x as int, y as int, z as int), b))
            },
            old(self).spec_pos() >= 4096 ==> r is None && final(self).spec_pos() == old(
                self,
            ).spec_pos(),
    {
        if self.pos < 4096 {
            let n = self.pos;
            proof {
                lemma_cube_decode(n as int);
            }
            let x = n / 256;
            let y = (n % 256) / 16;
            let z = n % 16;
            let b = self.chunk.block_at(x, y, z);
            self.pos = n + 1;
            Some(((x, y, z), b))
        } else {
            None
        }
    }
}

/// Law: a chunk's traversal is complete and duplicate-free. It has exactly
/// 4096 entries; every cell of the cube appears, at its encoded index and
/// paired with that cell's block; and no two entries share a position.
pub proof fn lemma_traversal_complete(c: Chunk)
    requires
        c.wf(),
    ensures
        c.blocks_seq().len() == 4096,
        forall|x: int, y: int, z: int|
            in_cube(x, y, z) ==> #[trigger] c.blocks_seq()[cube_index(x, y, z)] == (
            (x, y, z),
            c.spec_block(x, y, z),
            ),
        forall|n: int, m: int|
            0 <= n < m < 4096 ==> #[trigger] c.blocks_seq()[n].0 != #[trigger] c.blocks_seq()[m].0,
{
    assert forall|x: int, y: int, z: int| in_cube(x, y, z) implies #[trigger] c.blocks_seq()[
        cube_index(x, y, z)
    ] == ((x, y, z), c.spec_block(x, y, z)) by {
        lemma_cube_encode(x, y, z);
    }
    assert forall|n: int, m: int| 0 <= n < m < 4096 implies #[trigger] c.blocks_seq()[n].0
        != #[trigger] c.blocks_seq()[m].0 by {
        lemma_cube_decode(n);
        lemma_cube_decode(m);
    }
}

/// Law: the dense/uniform distinction is invisible to traversal. Two
/// well-formed chunks whose cells all hold the same block — one may be dense,
/// the other uniform — have identical traversals.
pub proof fn lemma_dense_uniform_equiv(c1: Chunk, c2: Chunk, b: Block)
    requires
        c1.wf(),
        c2.wf(),
        forall|x: int, y: int, z: int| in_cube(x, y, z) ==> #[trigger] c1.spec_block(x, y, z) == b,
        forall|x: int, y: int, z: int| in_cube(x, y, z) ==> #[trigger] c2.spec_block(x, y, z) == b,
    ensures
        c1.blocks_seq() == c2.blocks_seq(),
{
    assert forall|n: int| 0 <= n < 4096 implies c1.blocks_seq()[n] == c2.blocks_seq()[n] by {
        lemma_cube_decode(n);
    }
    assert(c1.blocks_seq() =~= c2.blocks_seq());
}

} // verus!
