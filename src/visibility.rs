//! Per-frame selection of the window's chunks that the camera frustum sees.
//!
//! The frustum test itself works on floating point and is made by the caller,
//! once per candidate in the order that `window_candidates` gives; the
//! selector turns those outcomes into the fixed-length visible list.

use vstd::prelude::*;
use crate::window::{
    chunk_global_index, in_window, slot_index, ChunkPos, CHUNK_COUNT, CHUNK_EXTENT_XZ,
    CHUNK_EXTENT_Y, CHUNKS_XZ, CHUNKS_Y,
};

verus! {

/// Slot index carried by an entry that holds no chunk.
pub const SENTINEL_INDEX: u32 = 0xffff_ffff;

/// The entry that marks an unused position of the visible list.
pub open spec fn sentinel() -> (ChunkPos, u32) {
    (ChunkPos { x: 0, y: 0, z: 0 }, SENTINEL_INDEX)
}

/// `origin` is far enough from the ends of `i32` that every coordinate of
/// its window is representable.
pub open spec fn window_origin_ok(origin: ChunkPos) -> bool {
    &&& i32::MIN + CHUNK_EXTENT_XZ <= origin.x <= i32::MAX - CHUNK_EXTENT_XZ
    &&& i32::MIN + CHUNK_EXTENT_Y <= origin.y <= i32::MAX - CHUNK_EXTENT_Y
    &&& i32::MIN + CHUNK_EXTENT_XZ <= origin.z <= i32::MAX - CHUNK_EXTENT_XZ
}

/// Offset of the `k`-th candidate from the window origin. Candidates are
/// visited with x outermost, then y, then z innermost, each from the
/// negative radius up to the positive one.
pub open spec fn candidate_offset(k: int) -> (int, int, int) {
    (
        k / ((CHUNKS_Y * CHUNKS_XZ) as int) - CHUNK_EXTENT_XZ,
        (k / (CHUNKS_XZ as int)) % (CHUNKS_Y as int) - CHUNK_EXTENT_Y,
        k % (CHUNKS_XZ as int) - CHUNK_EXTENT_XZ,
    )
}

/// The `k`-th candidate chunk of the window centred on `origin`.
pub open spec fn candidate(origin: ChunkPos, k: int) -> ChunkPos {
    let off = candidate_offset(k);
    ChunkPos {
        x: (origin.x + off.0) as i32,
        y: (origin.y + off.1) as i32,
        z: (origin.z + off.2) as i32,
    }
}

/// The list entry of the `k`-th candidate: its coordinate and its slot.
pub open spec fn candidate_entry(origin: ChunkPos, k: int) -> (ChunkPos, u32) {
    (candidate(origin, k), slot_index(candidate(origin, k), origin) as u32)
}

/// Entries of the visible candidates among the first `n`, in visiting order.
pub open spec fn visible_prefix(origin: ChunkPos, hits: Seq<bool>, n: nat) -> Seq<(ChunkPos, u32)>
    decreases n,
{
    if n == 0 {
        seq![]
    } else {
        let prev = visible_prefix(origin, hits, (n - 1) as nat);
        if hits[n - 1] {
            prev.push(candidate_entry(origin, n - 1))
        } else {
            prev
        }
    }
}

/// `n` sentinel entries.
pub open spec fn sentinels(n: nat) -> Seq<(ChunkPos, u32)> {
    Seq::new(n, |i: int| sentinel())
}

/// The visible list for camera chunk `origin` when the `k`-th candidate
/// meets the frustum exactly where `hits[k]` holds: the visible entries in
/// visiting order, then sentinels up to the window capacity.
pub open spec fn partition_list(origin: ChunkPos, hits: Seq<bool>) -> Seq<(ChunkPos, u32)> {
    let v = visible_prefix(origin, hits, CHUNK_COUNT as nat);
    v + sentinels((CHUNK_COUNT - v.len()) as nat)
}

/// The chunks selected in the last frame, with their slots, padded with
/// sentinel entries.
pub struct VisibleChunks {
    pub chunks: Vec<(ChunkPos, u32)>,
}

impl VisibleChunks {
    /// The list before any frame has been selected: one sentinel per slot.
    pub fn new() -> (r: VisibleChunks)
        ensures
            r.chunks@ == sentinels(CHUNK_COUNT as nat),
    {
        VisibleChunks { chunks: sentinel_entries() }
    }
}

impl Default for VisibleChunks {
    fn default() -> (r: VisibleChunks)
        ensures
            r.chunks@ == sentinels(CHUNK_COUNT as nat),
    {
        VisibleChunks::new()
    }
}

/// A list of `CHUNK_COUNT` sentinel entries.
fn sentinel_entries() -> (r: Vec<(ChunkPos, u32)>)
    ensures
        r@ == sentinels(CHUNK_COUNT as nat),
{
    let mut out: Vec<(ChunkPos, u32)> = Vec::new();
    let mut i: usize = 0;
    while i < CHUNK_COUNT
        invariant
            i <= CHUNK_COUNT,
            out@ == sentinels(i as nat),
        decreases CHUNK_COUNT - i,
    {
        out.push((ChunkPos::zero(), SENTINEL_INDEX));
        i = i + 1;
        assert(out@ =~= sentinels(i as nat));
    }
    out
}

/// What the camera contributes to one frame: the chunk it stands in and,
/// for each candidate of `window_candidates(chunk)`, whether that chunk's
/// box meets the frustum (near and far planes included).
pub struct CameraView {
    pub chunk: ChunkPos,
    pub intersects: Vec<bool>,
}

/// The camera's contribution as mathematical values.
pub open spec fn camera_model(camera: Option<&CameraView>) -> Option<(ChunkPos, Seq<bool>)> {
    match camera {
        Some(c) => Some((c.chunk, c.intersects@)),
        None => None,
    }
}

/// The visible list after a selector update from `prev`: unchanged when no
/// camera was found, else the list of that camera's frame.
pub open spec fn selected_list(
    prev: Seq<(ChunkPos, u32)>,
    camera: Option<(ChunkPos, Seq<bool>)>,
) -> Seq<(ChunkPos, u32)> {
    match camera {
        Some((origin, hits)) => partition_list(origin, hits),
        None => prev,
    }
}

/// Whether every coordinate of the window centred on `origin` fits in `i32`.
pub fn window_origin_in_range(origin: ChunkPos) -> (r: bool)
    ensures
        r == window_origin_ok(origin),
{
    i32::MIN + CHUNK_EXTENT_XZ <= origin.x && origin.x <= i32::MAX - CHUNK_EXTENT_XZ
        && i32::MIN + CHUNK_EXTENT_Y <= origin.y && origin.y <= i32::MAX - CHUNK_EXTENT_Y
        && i32::MIN + CHUNK_EXTENT_XZ <= origin.z && origin.z <= i32::MAX - CHUNK_EXTENT_XZ
}

/// The `k`-th candidate lies in the window and fits in `i32`.
proof fn lemma_candidate_in_window(origin: ChunkPos, k: int)
    requires
        window_origin_ok(origin),
        0 <= k < CHUNK_COUNT,
    ensures
        in_window(candidate(origin, k), origin),
        candidate(origin, k).x == origin.x + candidate_offset(k).0,
        candidate(origin, k).y == origin.y + candidate_offset(k).1,
        candidate(origin, k).z == origin.z + candidate_offset(k).2,
{
}

/// Coordinate of the `k`-th candidate.
fn candidate_at(origin: ChunkPos, k: usize) -> (r: ChunkPos)
    requires
        window_origin_ok(origin),
        k < CHUNK_COUNT,
    ensures
        r == candidate(origin, k as int),
        in_window(r, origin),
{
    proof {
        lemma_candidate_in_window(origin, k as int);
    }
    let dx = (k / (CHUNKS_Y * CHUNKS_XZ)) as i32 - CHUNK_EXTENT_XZ;
    let dy = ((k / CHUNKS_XZ) % CHUNKS_Y) as i32 - CHUNK_EXTENT_Y;
    let dz = (k % CHUNKS_XZ) as i32 - CHUNK_EXTENT_XZ;
    ChunkPos { x: origin.x + dx, y: origin.y + dy, z: origin.z + dz }
}

/// The window's candidate chunks around `origin`, in visiting order.
pub fn window_candidates(origin: ChunkPos) -> (r: Vec<ChunkPos>)
    requires
        window_origin_ok(origin),
    ensures
        r@.len() == CHUNK_COUNT,
        forall|k: int| 0 <= k < CHUNK_COUNT ==> #[trigger] r@[k] == candidate(origin, k),
{
    let mut r: Vec<ChunkPos> = Vec::new();
    let mut k: usize = 0;
    while k < CHUNK_COUNT
        invariant
            window_origin_ok(origin),
            k <= CHUNK_COUNT,
            r@.len() == k,
            forall|j: int| 0 <= j < k ==> #[trigger] r@[j] == candidate(origin, j),
        decreases CHUNK_COUNT - k,
    {
        r.push(candidate_at(origin, k));
        k = k + 1;
    }
    r
}

/// At most one entry per candidate visited.
pub proof fn lemma_visible_prefix_len(origin: ChunkPos, hits: Seq<bool>, n: nat)
    ensures
        visible_prefix(origin, hits, n).len() <= n,
    decreases n,
{
    if n > 0 {
        lemma_visible_prefix_len(origin, hits, (n - 1) as nat);
    }
}

/// Rebuilds `visible` for this frame. Without a camera the previous list is
/// kept as it is; with one, the list becomes the entries of the candidates
/// that meet the frustum, in visiting order, followed by sentinels.
pub fn chunks_partition(visible: &mut VisibleChunks, camera: Option<&CameraView>)
    requires
        camera matches Some(c) ==> window_origin_ok(c.chunk) && c.intersects@.len() == CHUNK_COUNT,
    ensures
        final(visible).chunks@ == selected_list(old(visible).chunks@, camera_model(camera)),
        camera is None ==> final(visible).chunks@ == old(visible).chunks@,
        camera matches Some(c) ==> final(visible).chunks@ == partition_list(c.chunk, c.intersects@),
        camera is Some ==> final(visible).chunks@.len() == CHUNK_COUNT,
{
    let cam = match camera {
        Some(c) => c,
        None => {
            return;
        },
    };
    let origin = cam.chunk;
    let mut out = sentinel_entries();
    let mut idx: usize = 0;
    let mut k: usize = 0;
    while k < CHUNK_COUNT
        invariant
            window_origin_ok(origin),
            cam.intersects@.len() == CHUNK_COUNT,
            k <= CHUNK_COUNT,
            idx as int == visible_prefix(origin, cam.intersects@, k as nat).len(),
            idx <= k,
            out@ == visible_prefix(origin, cam.intersects@, k as nat) + sentinels(
                (CHUNK_COUNT - idx) as nat,
            ),
        decreases CHUNK_COUNT - k,
    {
        proof {
            lemma_visible_prefix_len(origin, cam.intersects@, k as nat);
        }
        if cam.intersects[k] {
            let c = candidate_at(origin, k);
            let slot = chunk_global_index(c, origin);
            out.set(idx, (c, slot));
            proof {
                let p = visible_prefix(origin, cam.intersects@, k as nat);
                assert(visible_prefix(origin, cam.intersects@, (k + 1) as nat) == p.push(
                    candidate_entry(origin, k as int),
                ));
                assert(out@ =~= p.push(candidate_entry(origin, k as int)) + sentinels(
                    (CHUNK_COUNT - idx - 1) as nat,
                ));
            }
            idx = idx + 1;
        }
        k = k + 1;
    }
    visible.chunks = out;
}

/// Whatever chunks meet the frustum, including none, the visible list has
/// exactly one position per window slot.
pub proof fn lemma_partition_list_len(origin: ChunkPos, hits: Seq<bool>)
    ensures
        partition_list(origin, hits).len() == CHUNK_COUNT,
{
    lemma_visible_prefix_len(origin, hits, CHUNK_COUNT as nat);
}

/// Two selector updates with the same camera chunk and the same frustum
/// outcomes give the same list, sentinel tail included, whatever the lists
/// they replaced held.
pub proof fn lemma_selection_deterministic(
    first_prev: Seq<(ChunkPos, u32)>,
    second_prev: Seq<(ChunkPos, u32)>,
    origin: ChunkPos,
    hits: Seq<bool>,
)
    ensures
        selected_list(first_prev, Some((origin, hits))) == selected_list(
            second_prev,
            Some((origin, hits)),
        ),
        selected_list(first_prev, Some((origin, hits))).len() == CHUNK_COUNT,
{
    lemma_partition_list_len(origin, hits);
}

/// No entries come from the first `n` candidates when none of them is hit.
proof fn lemma_visible_prefix_empty(origin: ChunkPos, hits: Seq<bool>, n: nat)
    requires
        n <= hits.len(),
        forall|k: int| 0 <= k < n ==> !#[trigger] hits[k],
    ensures
        visible_prefix(origin, hits, n).len() == 0,
    decreases n,
{
    if n > 0 {
        lemma_visible_prefix_empty(origin, hits, (n - 1) as nat);
    }
}

/// A frustum that excludes every candidate gives a list of sentinels only.
pub proof fn lemma_no_hits_all_sentinels(origin: ChunkPos, hits: Seq<bool>)
    requires
        hits.len() == CHUNK_COUNT,
        forall|k: int| 0 <= k < CHUNK_COUNT ==> !#[trigger] hits[k],
    ensures
        partition_list(origin, hits) == sentinels(CHUNK_COUNT as nat),
        forall|i: int|
            0 <= i < CHUNK_COUNT ==> #[trigger] partition_list(origin, hits)[i] == sentinel(),
{
    lemma_visible_prefix_empty(origin, hits, CHUNK_COUNT as nat);
    assert(partition_list(origin, hits) =~= sentinels(CHUNK_COUNT as nat));
}

} // verus!
