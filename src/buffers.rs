//! Sizes and usages of the three GPU buffers of the compute grid, the
//! globals record, and the per-frame upload of the visible list into the
//! chunk-identity buffer.

use vstd::prelude::*;
use crate::visibility::VisibleChunks;
use crate::window::{ChunkPos, CHUNK_COUNT, CHUNK_SIZE, CHUNK_VOXELS_COUNT};

verus! {

/// Bytes of one chunk-identity record: three `i32` coordinates and a `u32` slot.
pub const CHUNK_RECORD_BYTES: u64 = 16;

/// Bytes of one density scalar.
pub const DENSITY_SCALAR_BYTES: u64 = 4;

/// Bytes of one vertex record: four 32-bit components.
pub const VERTEX_RECORD_BYTES: u64 = 16;

/// Vertex records that the extraction pass writes for each voxel cell.
pub const VERTICES_PER_VOXEL: u64 = 3;

/// The uniform record shared by both compute programs.
#[derive(Clone, Copy, Debug, PartialEq, Eq, Structural)]
pub struct Globals {
    pub chunk_size: u32,
}

impl Globals {
    pub fn new() -> (r: Globals)
        ensures
            r.chunk_size == CHUNK_SIZE,
    {
        Globals { chunk_size: CHUNK_SIZE }
    }
}

/// One entry of the chunk-identity buffer as the compute programs read it.
#[derive(Clone, Copy, Debug)]
pub struct ChunkCoord {
    pub coord: [i32; 3],
    pub global_index: u32,
}

/// How a buffer may be used on the GPU.
#[derive(Clone, Copy, Debug, PartialEq, Eq, Structural)]
pub struct BufferUsage {
    /// Read and written by compute programs.
    pub storage: bool,
    /// Destination of copies from the CPU.
    pub copy_dst: bool,
    /// Input of the draw stage's vertex fetch.
    pub vertex: bool,
}

/// Size in bytes and usage of one buffer.
#[derive(Clone, Copy, Debug, PartialEq, Eq, Structural)]
pub struct BufferDesc {
    pub size: u64,
    pub usage: BufferUsage,
}

/// The three buffers of the compute grid, allocated once for the whole window.
#[derive(Clone, Copy, Debug, PartialEq, Eq, Structural)]
pub struct GridBuffers {
    pub chunks: BufferDesc,
    pub voxels: BufferDesc,
    pub vertices: BufferDesc,
}

/// Vertex records in the vertex-output buffer, one region per window slot.
pub open spec fn vertex_capacity() -> int {
    CHUNK_COUNT * CHUNK_VOXELS_COUNT * VERTICES_PER_VOXEL
}

/// The buffers sized for the worst case of the window: every slot holds a
/// chunk-identity record, a full voxel block of density scalars and the
/// vertex records of each of its voxels. Only the chunk-identity buffer
/// takes copies from the CPU; only the vertex buffer feeds the draw.
pub open spec fn grid_buffers_spec() -> GridBuffers {
    GridBuffers {
        chunks: BufferDesc {
            size: (CHUNK_COUNT * CHUNK_RECORD_BYTES) as u64,
            usage: BufferUsage { storage: true, copy_dst: true, vertex: false },
        },
        voxels: BufferDesc {
            size: (CHUNK_COUNT * CHUNK_VOXELS_COUNT * DENSITY_SCALAR_BYTES) as u64,
            usage: BufferUsage { storage: true, copy_dst: false, vertex: false },
        },
        vertices: BufferDesc {
            size: (vertex_capacity() * VERTEX_RECORD_BYTES) as u64,
            usage: BufferUsage { storage: true, copy_dst: false, vertex: true },
        },
    }
}

/// Descriptions of the three buffers that startup allocates.
pub fn compute_grid_buffers() -> (r: GridBuffers)
    ensures
        r == grid_buffers_spec(),
        r.chunks.size == 24336,
        r.voxels.size == 24920064,
        r.vertices.size == 299040768,
{
    let count = CHUNK_COUNT as u64;
    let voxels = CHUNK_VOXELS_COUNT as u64;
    GridBuffers {
        chunks: BufferDesc {
            size: count * CHUNK_RECORD_BYTES,
            usage: BufferUsage { storage: true, copy_dst: true, vertex: false },
        },
        voxels: BufferDesc {
            size: count * voxels * DENSITY_SCALAR_BYTES,
            usage: BufferUsage { storage: true, copy_dst: false, vertex: false },
        },
        vertices: BufferDesc {
            size: count * voxels * VERTICES_PER_VOXEL * VERTEX_RECORD_BYTES,
            usage: BufferUsage { storage: true, copy_dst: false, vertex: true },
        },
    }
}

/// The record that stands for one entry of the visible list.
pub open spec fn record_of(e: (ChunkPos, u32)) -> ChunkCoord {
    ChunkCoord { coord: [e.0.x, e.0.y, e.0.z], global_index: e.1 }
}

/// The `j`-th 32-bit word of the record of `e`: x, y, z (two's complement),
/// then the slot.
pub open spec fn entry_word(e: (ChunkPos, u32), j: int) -> u32 {
    if j == 0 {
        e.0.x as u32
    } else if j == 1 {
        e.0.y as u32
    } else if j == 2 {
        e.0.z as u32
    } else {
        e.1
    }
}

/// The words of the chunk-identity buffer for `list`, four per entry, in
/// list order.
pub open spec fn upload_words_spec(list: Seq<(ChunkPos, u32)>) -> Seq<u32> {
    Seq::new(4 * list.len(), |i: int| entry_word(list[i / 4], i % 4))
}

/// The words written over the chunk-identity buffer in a frame: the whole
/// list when the buffer is realized, nothing otherwise. `prepare_voxel_buffers`
/// hands them over as their little-endian bytes.
pub open spec fn upload_spec(list: Seq<(ChunkPos, u32)>, chunks_buffer_ready: bool) -> Option<
    Seq<u32>,
> {
    if chunks_buffer_ready {
        Some(upload_words_spec(list))
    } else {
        None
    }
}

/// The records of the visible list, in list order.
pub fn chunk_records(visible: &VisibleChunks) -> (r: Vec<ChunkCoord>)
    ensures
        r@.len() == visible.chunks@.len(),
        forall|i: int| 0 <= i < r@.len() ==> #[trigger] r@[i] == record_of(visible.chunks@[i]),
{
    let mut r: Vec<ChunkCoord> = Vec::new();
    let mut i: usize = 0;
    while i < visible.chunks.len()
        invariant
            i <= visible.chunks@.len(),
            r@.len() == i,
            forall|j: int| 0 <= j < i ==> #[trigger] r@[j] == record_of(visible.chunks@[j]),
        decreases visible.chunks@.len() - i,
    {
        let (c, slot) = visible.chunks[i];
        r.push(ChunkCoord { coord: [c.x, c.y, c.z], global_index: slot });
        i = i + 1;
    }
    r
}

/// The visible list flattened into the words of the chunk-identity buffer.
pub fn upload_words(visible: &VisibleChunks) -> (r: Vec<u32>)
    ensures
        r@ == upload_words_spec(visible.chunks@),
{
    let mut r: Vec<u32> = Vec::new();
    let mut i: usize = 0;
    while i < visible.chunks.len()
        invariant
            i <= visible.chunks@.len(),
            r@ == upload_words_spec(visible.chunks@.subrange(0, i as int)),
        decreases visible.chunks@.len() - i,
    {
        let (c, slot) = visible.chunks[i];
        proof {
            let prev = visible.chunks@.subrange(0, i as int);
            let next = visible.chunks@.subrange(0, i + 1);
            assert(forall|j: int| 0 <= j < i ==> #[trigger] next[j] == prev[j]);
        }
        r.push(c.x as u32);
        r.push(c.y as u32);
        r.push(c.z as u32);
        r.push(slot);
        i = i + 1;
        proof {
            let next = visible.chunks@.subrange(0, i as int);
            assert forall|w: int| 0 <= w < 4 * next.len() implies #[trigger] r@[w] == entry_word(
                next[w / 4],
                w % 4,
            ) by {}
            assert(r@ =~= upload_words_spec(next));
        }
    }
    assert(visible.chunks@.subrange(0, i as int) =~= visible.chunks@);
    r
}

/// Byte `j` of `w`, least significant first.
pub open spec fn word_byte(w: u32, j: int) -> u8 {
    if j == 0 {
        (w & 0xff) as u8
    } else if j == 1 {
        ((w >> 8u32) & 0xff) as u8
    } else if j == 2 {
        ((w >> 16u32) & 0xff) as u8
    } else {
        ((w >> 24u32) & 0xff) as u8
    }
}

/// `words` laid out as GPU storage buffers read them: four bytes per word,
/// little-endian, in order.
pub open spec fn le_bytes_spec(words: Seq<u32>) -> Seq<u8> {
    Seq::new(4 * words.len(), |i: int| word_byte(words[i / 4], i % 4))
}

/// The little-endian bytes of `words`.
pub fn words_to_le_bytes(words: &Vec<u32>) -> (r: Vec<u8>)
    ensures
        r@ == le_bytes_spec(words@),
{
    let mut r: Vec<u8> = Vec::new();
    let mut i: usize = 0;
    while i < words.len()
        invariant
            i <= words@.len(),
            r@ == le_bytes_spec(words@.subrange(0, i as int)),
        decreases words@.len() - i,
    {
        let w = words[i];
        proof {
            let prev = words@.subrange(0, i as int);
            let next = words@.subrange(0, i + 1);
            assert(forall|j: int| 0 <= j < i ==> #[trigger] next[j] == prev[j]);
        }
        r.push((w & 0xff) as u8);
        r.push(((w >> 8u32) & 0xff) as u8);
        r.push(((w >> 16u32) & 0xff) as u8);
        r.push(((w >> 24u32) & 0xff) as u8);
        i = i + 1;
        proof {
            let next = words@.subrange(0, i as int);
            assert forall|b: int| 0 <= b < 4 * next.len() implies #[trigger] r@[b] == word_byte(
                next[b / 4],
                b % 4,
            ) by {}
            assert(r@ =~= le_bytes_spec(next));
        }
    }
    assert(words@.subrange(0, i as int) =~= words@);
    r
}

/// The bytes to write over the whole chunk-identity buffer this frame, or
/// nothing when that buffer is not yet realized on the GPU: the words of
/// `upload_words(visible)` in little-endian order, so that bytes
/// `16 * i .. 16 * i + 16` hold x, y, z and the slot of entry `i`. The list
/// may not hold more records than the buffer, which is sized for
/// `CHUNK_COUNT`.
pub fn prepare_voxel_buffers(visible: &VisibleChunks, chunks_buffer_ready: bool) -> (r: Option<
    Vec<u8>,
>)
    requires
        visible.chunks@.len() <= CHUNK_COUNT,
    ensures
        r is Some <==> upload_spec(visible.chunks@, chunks_buffer_ready) is Some,
        r matches Some(b) ==> b@ == le_bytes_spec(upload_words_spec(visible.chunks@)),
        r matches Some(b) ==> b@.len() == CHUNK_RECORD_BYTES * visible.chunks@.len(),
{
    if !chunks_buffer_ready {
        return None;
    }
    let words = upload_words(visible);
    Some(words_to_le_bytes(&words))
}

} // verus!
