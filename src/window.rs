//! The fixed window of candidate chunks around the camera and the bijective
//! slot indexer that addresses GPU buffer regions.

use vstd::prelude::*;
use vstd::arithmetic::div_mod::lemma_fundamental_div_mod_converse;

verus! {

/// Edge length of a chunk, in world units and in voxels.
pub const CHUNK_SIZE: u32 = 16;

/// Horizontal (x and z) radius of the window, in chunks.
pub const CHUNK_EXTENT_XZ: i32 = 6;

/// Vertical (y) radius of the window, in chunks.
pub const CHUNK_EXTENT_Y: i32 = 4;

/// Horizontal side length of the window: `2 * CHUNK_EXTENT_XZ + 1`.
pub const CHUNKS_XZ: usize = 13;

/// Vertical side length of the window: `2 * CHUNK_EXTENT_Y + 1`.
pub const CHUNKS_Y: usize = 9;

/// Number of slots in the window; every GPU buffer is sized from it.
pub const CHUNK_COUNT: usize = CHUNKS_XZ * CHUNKS_XZ * CHUNKS_Y;

/// Number of voxels in one chunk.
pub const CHUNK_VOXELS_COUNT: usize = 4096;

/// Capacity of a window with horizontal radius `rxz` and vertical radius `ry`.
pub open spec fn window_capacity(rxz: int, ry: int) -> int {
    (2 * rxz + 1) * (2 * rxz + 1) * (2 * ry + 1)
}

/// An integer chunk coordinate in world-grid space.
#[derive(Clone, Copy, Debug, PartialEq, Eq, Structural)]
pub struct ChunkPos {
    pub x: i32,
    pub y: i32,
    pub z: i32,
}

impl ChunkPos {
    pub fn new(x: i32, y: i32, z: i32) -> (r: ChunkPos)
        ensures
            r == (ChunkPos { x, y, z }),
    {
        ChunkPos { x, y, z }
    }

    pub fn zero() -> (r: ChunkPos)
        ensures
            r == (ChunkPos { x: 0, y: 0, z: 0 }),
    {
        ChunkPos { x: 0, y: 0, z: 0 }
    }
}

/// `c` lies in the window centred on `origin`.
pub open spec fn in_window(c: ChunkPos, origin: ChunkPos) -> bool {
    &&& -(CHUNK_EXTENT_XZ as int) <= c.x - origin.x <= CHUNK_EXTENT_XZ as int
    &&& -(CHUNK_EXTENT_Y as int) <= c.y - origin.y <= CHUNK_EXTENT_Y as int
    &&& -(CHUNK_EXTENT_XZ as int) <= c.z - origin.z <= CHUNK_EXTENT_XZ as int
}

/// Slot of `c` in the window centred on `origin`: each axis shifted into
/// `[0, side)`, then composed row-major as `x + y * W + z * W * H`, with `W`
/// the horizontal and `H` the vertical side length, so that the slots of the
/// window are exactly `[0, CHUNK_COUNT)`.
pub open spec fn slot_index(c: ChunkPos, origin: ChunkPos) -> int {
    let xi = c.x - origin.x + CHUNK_EXTENT_XZ as int;
    let yi = c.y - origin.y + CHUNK_EXTENT_Y as int;
    let zi = c.z - origin.z + CHUNK_EXTENT_XZ as int;
    xi + yi * (CHUNKS_XZ as int) + zi * (CHUNKS_XZ as int) * (CHUNKS_Y as int)
}

/// Slot index of `chunk` in the window centred on `origin`.
pub fn chunk_global_index(chunk: ChunkPos, origin: ChunkPos) -> (r: u32)
    requires
        in_window(chunk, origin),
    ensures
        r as int == slot_index(chunk, origin),
        r < CHUNK_COUNT,
{
    proof {
        lemma_slot_index_bijective(chunk, chunk, origin);
    }
    let xi = (chunk.x as i64 - origin.x as i64 + CHUNK_EXTENT_XZ as i64) as u32;
    let yi = (chunk.y as i64 - origin.y as i64 + CHUNK_EXTENT_Y as i64) as u32;
    let zi = (chunk.z as i64 - origin.z as i64 + CHUNK_EXTENT_XZ as i64) as u32;
    xi + yi * CHUNKS_XZ as u32 + zi * CHUNKS_XZ as u32 * CHUNKS_Y as u32
}

/// The window's side lengths are those of its radii, and its capacity is
/// `13 * 13 * 9 == 1521` slots for radii 6 and 4.
pub proof fn lemma_window_capacity()
    ensures
        CHUNKS_XZ == 2 * CHUNK_EXTENT_XZ + 1,
        CHUNKS_Y == 2 * CHUNK_EXTENT_Y + 1,
        CHUNK_COUNT == window_capacity(CHUNK_EXTENT_XZ as int, CHUNK_EXTENT_Y as int),
        CHUNK_COUNT == 13 * 13 * 9,
        CHUNK_COUNT == 1521,
        CHUNK_VOXELS_COUNT == CHUNK_SIZE * CHUNK_SIZE * CHUNK_SIZE,
{
}

/// The indexer is a bijection from the window onto `[0, CHUNK_COUNT)`:
/// every slot is in range, and two coordinates of the window that share a
/// slot are the same coordinate.
pub proof fn lemma_slot_index_bijective(a: ChunkPos, b: ChunkPos, origin: ChunkPos)
    requires
        in_window(a, origin),
        in_window(b, origin),
    ensures
        0 <= slot_index(a, origin) < CHUNK_COUNT,
        slot_index(a, origin) == slot_index(b, origin) ==> a == b,
{
    let i = slot_index(a, origin);
    let ax = a.x - origin.x + 6;
    let ay = a.y - origin.y + 4;
    let az = a.z - origin.z + 6;
    let bx = b.x - origin.x + 6;
    let by = b.y - origin.y + 4;
    let bz = b.z - origin.z + 6;
    assert(i == (ay + az * 9) * 13 + ax) by (nonlinear_arith)
        requires
            i == ax + ay * 13 + az * 13 * 9,
    ;
    lemma_fundamental_div_mod_converse(i, 13, ay + az * 9, ax);
    lemma_fundamental_div_mod_converse(i / 13, 9, az, ay);
    if slot_index(a, origin) == slot_index(b, origin) {
        assert(i == (by + bz * 9) * 13 + bx) by (nonlinear_arith)
            requires
                i == bx + by * 13 + bz * 13 * 9,
        ;
        lemma_fundamental_div_mod_converse(i, 13, by + bz * 9, bx);
        lemma_fundamental_div_mod_converse(i / 13, 9, bz, by);
    }
}

} // verus!
