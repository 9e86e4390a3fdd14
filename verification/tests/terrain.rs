use voxel_world::chunk::{Block, Chunk};
use voxel_world::landscape::{Landscape, HEIGHT_FP_RANGE, HEIGHT_FP_SCALE};
use voxel_world::world::{World, WorldError};

/// Collects a chunk's full traversal into a vector.
fn collect_blocks(c: &Chunk) -> Vec<((usize, usize, usize), Block)> {
    let mut out = Vec::new();
    let mut it = c.blocks();
    while let Some(entry) = it.next() {
        out.push(entry);
    }
    out
}

/// A flat landscape: every column sample is `fp` fixed-point units.
fn flat_landscape(fp: u32, dims: (usize, usize)) -> Landscape {
    Landscape::from_heights(vec![fp; dims.0 * dims.1], dims).unwrap()
}

#[test]
fn test_world_get_chunk() {
}

#[test]
fn test_generate_deterministic() {
    let a = Landscape::generate(12345, (5, 3));
    let b = Landscape::generate(12345, (5, 3));
    for x in 0..5 {
        for y in 0..3 {
            let va = a.get((x, y));
            let vb = b.get((x, y));
            assert!(va.is_some());
            assert_eq!(va, vb);
        }
    }
}

#[test]
fn test_generate_samples_in_range() {
    let l = Landscape::generate(7, (8, 8));
    for x in 0..8 {
        for y in 0..8 {
            let v = l.get((x, y)).unwrap();
            assert!((v as u64) < HEIGHT_FP_RANGE, "sample {} out of the fixed-point range", v);
        }
    }
}

#[test]
fn test_landscape_get_bounds() {
    let l = Landscape::generate(99, (3, 2));
    for x in 0..3 {
        for y in 0..2 {
            assert!(l.get((x, y)).is_some());
        }
    }
    assert!(l.get((3, 0)).is_none());
    assert!(l.get((0, 2)).is_none());
    assert!(l.get((3, 2)).is_none());
    assert!(l.get((100, 100)).is_none());
}

#[test]
fn test_from_heights_len_mismatch() {
    assert!(Landscape::from_heights(vec![0; 3], (2, 2)).is_none());
    assert!(Landscape::from_heights(vec![0; 5], (2, 2)).is_none());
    assert!(Landscape::from_heights(vec![0; 4], (2, 2)).is_some());
}

#[test]
fn test_flat_scenario() {
    // Flat terrain at height 5 everywhere, in fixed-point units.
    let l = flat_landscape(5 * HEIGHT_FP_SCALE, (2, 2));
    let mut w = World::new(l);
    {
        let c = w.get_chunk((0, 0, 0)).unwrap();
        let entries = collect_blocks(c);
        assert_eq!(entries.len(), 4096);
        for ((_, _, z), b) in entries {
            if z < 5 {
                assert_eq!(b, Block::Stone);
            } else {
                assert_eq!(b, Block::Air);
            }
        }
    }
    {
        // One band up, the whole chunk floats above the surface.
        let c = w.get_chunk((0, 0, 1)).unwrap();
        for (_, b) in collect_blocks(c) {
            assert_eq!(b, Block::Air);
        }
    }
}

#[test]
fn test_cache_coherence() {
    let l = Landscape::generate(42, (4, 4));
    let mut w = World::new(l);
    let first = collect_blocks(w.get_chunk((1, 2, 0)).unwrap());
    let second = collect_blocks(w.get_chunk((1, 2, 0)).unwrap());
    assert_eq!(first, second);
}

#[test]
fn test_classification() {
    // Flat terrain at height 40, in fixed-point units.
    let l = flat_landscape(40 * HEIGHT_FP_SCALE, (2, 2));
    let mut w = World::new(l);
    {
        // Band 0 covers heights 0..16, wholly below the surface: all stone.
        let c = w.get_chunk((0, 0, 0)).unwrap();
        let entries = collect_blocks(c);
        assert_eq!(entries.len(), 4096);
        for (_, b) in entries {
            assert_eq!(b, Block::Stone);
        }
    }
    {
        // Band 2 covers heights 32..48 and meets the surface at 40: mixed.
        let c = w.get_chunk((0, 0, 2)).unwrap();
        for ((_, _, z), b) in collect_blocks(c) {
            if z < 8 {
                assert_eq!(b, Block::Stone);
            } else {
                assert_eq!(b, Block::Air);
            }
        }
    }
    {
        // Band 3 covers heights 48..64, wholly above the surface: all air.
        let c = w.get_chunk((0, 0, 3)).unwrap();
        for (_, b) in collect_blocks(c) {
            assert_eq!(b, Block::Air);
        }
    }
    {
        // A band below zero is wholly below the surface: all stone.
        let c = w.get_chunk((0, 0, -1)).unwrap();
        for (_, b) in collect_blocks(c) {
            assert_eq!(b, Block::Stone);
        }
    }
}

#[test]
fn test_traversal_complete() {
    let l = Landscape::generate(7, (3, 3));
    let mut w = World::new(l);
    let c = w.get_chunk((0, 0, 0)).unwrap();
    let entries = collect_blocks(c);
    assert_eq!(entries.len(), 4096);
    // Each cell of the cube appears exactly once, x slowest and z fastest.
    let mut seen = vec![false; 4096];
    for (n, ((x, y, z), _)) in entries.iter().enumerate() {
        assert_eq!((*x, *y, *z), (n / 256, (n % 256) / 16, n % 16));
        assert!(*x < 16 && *y < 16 && *z < 16);
        let idx = x * 256 + y * 16 + z;
        assert!(!seen[idx], "cell ({}, {}, {}) repeated", x, y, z);
        seen[idx] = true;
    }
    assert!(seen.iter().all(|&s| s));
}

#[test]
fn test_traversal_exhausts() {
    let c = Chunk::new_uniform(Block::Air);
    let mut it = c.blocks();
    for _ in 0..4096 {
        assert!(it.next().is_some());
    }
    assert!(it.next().is_none());
    assert!(it.next().is_none());
}

#[test]
fn test_chunk_matches_interpolation_oracle() {
    // Recompute the height map independently from the landscape samples and
    // hold the chunk's blocks to it: corner (i+a, j+b) weighs
    // |x - 16a| * |y - 16b|, and the weighted sum is truncated to blocks.
    let l = Landscape::generate(2026, (3, 3));
    let (i, j) = (1usize, 0usize);
    let c00 = l.get((i, j)).unwrap() as u64;
    let c01 = l.get((i, j + 1)).unwrap() as u64;
    let c10 = l.get((i + 1, j)).unwrap() as u64;
    let c11 = l.get((i + 1, j + 1)).unwrap() as u64;
    let mut w = World::new(l);
    let c = w.get_chunk((i as i32, j as i32, 0)).unwrap();
    for x in 0..16u64 {
        for y in 0..16u64 {
            let h = (c00 * x * y + c01 * x * (16 - y) + c10 * (16 - x) * y + c11 * (16 - x) * (16
                - y)) / 65536;
            for z in 0..16u64 {
                let expected = if z < h { Block::Stone } else { Block::Air };
                assert_eq!(
                    c.block_at(x as usize, y as usize, z as usize),
                    expected,
                    "cell ({}, {}, {}) against surface height {}",
                    x,
                    y,
                    z,
                    h
                );
            }
        }
    }
}

#[test]
fn test_traversal_restartable() {
    let c = Chunk::new_uniform(Block::Stone);
    let first = collect_blocks(&c);
    let second = collect_blocks(&c);
    assert_eq!(first, second);
    assert_eq!(first.len(), 4096);
}

#[test]
fn test_dense_uniform_equiv() {
    let dense_stone = Chunk::new_with_data(vec![Block::Stone; 4096]);
    let uniform_stone = Chunk::new_uniform(Block::Stone);
    assert_eq!(collect_blocks(&dense_stone), collect_blocks(&uniform_stone));

    let dense_air = Chunk::new_with_data(vec![Block::Air; 4096]);
    let uniform_air = Chunk::new_uniform(Block::Air);
    assert_eq!(collect_blocks(&dense_air), collect_blocks(&uniform_air));
}

#[test]
fn test_block_at_matches_traversal() {
    let l = Landscape::generate(31, (2, 2));
    let mut w = World::new(l);
    let c = w.get_chunk((0, 0, 0)).unwrap();
    for ((x, y, z), b) in collect_blocks(c) {
        assert_eq!(c.block_at(x, y, z), b);
    }
}

#[test]
fn test_out_of_bounds_error() {
    let l = flat_landscape(5 * HEIGHT_FP_SCALE, (2, 2));
    let mut w = World::new(l);
    // Column (i, j) needs corners through (i+1, j+1) inside the 2x2 grid.
    assert_eq!(w.get_chunk((1, 0, 0)).err(), Some(WorldError::ColumnOutOfBounds));
    assert_eq!(w.get_chunk((0, 1, 0)).err(), Some(WorldError::ColumnOutOfBounds));
    assert_eq!(w.get_chunk((-1, 0, 0)).err(), Some(WorldError::ColumnOutOfBounds));
    assert_eq!(w.get_chunk((0, -1, 0)).err(), Some(WorldError::ColumnOutOfBounds));
    assert!(w.get_chunk((0, 0, 0)).is_ok());

    // A 1x1 grid covers no complete column at all.
    let small = flat_landscape(5 * HEIGHT_FP_SCALE, (1, 1));
    let mut ws = World::new(small);
    assert_eq!(ws.get_chunk((0, 0, 0)).err(), Some(WorldError::ColumnOutOfBounds));
}

#[test]
fn test_interpolation_exact() {
    // Corners: (0,0), (0,1), (1,0) at height 0; (1,1) at 10 blocks (2560).
    // A corner's weight at cell (x, y) is |x - 16i| * |y - 16j|, so the far
    // corner dominates: cell (0,0) takes corner (1,1)'s full weight of 256.
    let l = Landscape::from_heights(vec![0, 0, 0, 10 * HEIGHT_FP_SCALE], (2, 2)).unwrap();
    let mut w = World::new(l);
    let c = w.get_chunk((0, 0, 0)).unwrap();
    // Cell (0,0): height 2560 * 256 / 65536 = 10.
    for z in 0..16 {
        let expected = if z < 10 { Block::Stone } else { Block::Air };
        assert_eq!(c.block_at(0, 0, z), expected);
    }
    // Cell (8,8): weight (16-8)*(16-8) = 64, height 2560 * 64 / 65536 = 2.
    for z in 0..16 {
        let expected = if z < 2 { Block::Stone } else { Block::Air };
        assert_eq!(c.block_at(8, 8, z), expected);
    }
    // Cell (15,15): weight 1, height 2560 / 65536 truncates to 0: no stone.
    for z in 0..16 {
        assert_eq!(c.block_at(15, 15, z), Block::Air);
    }
}
