//! An on-demand voxel terrain engine: a seeded landscape height field, a
//! memoized per-column height map, a memoized chunk store, and a 16x16x16
//! chunk representation (dense or collapsed to a single uniform block) with a
//! restartable traversal over its coordinate cube.

pub mod chunk;
pub mod height_map;
pub mod landscape;
pub mod rng;
pub mod world;
