use voxel_window::visibility::{
    chunks_partition, window_candidates, window_origin_in_range, CameraView, VisibleChunks,
    SENTINEL_INDEX,
};
use voxel_window::window::{
    chunk_global_index, ChunkPos, CHUNKS_XZ, CHUNKS_Y, CHUNK_COUNT, CHUNK_EXTENT_XZ,
    CHUNK_EXTENT_Y, CHUNK_SIZE, CHUNK_VOXELS_COUNT,
};

fn sentinel() -> (ChunkPos, u32) {
    (ChunkPos::new(0, 0, 0), SENTINEL_INDEX)
}

fn view(origin: ChunkPos, intersects: Vec<bool>) -> CameraView {
    CameraView { chunk: origin, intersects }
}

#[test]
fn window_capacity_for_radii_six_and_four() {
    assert_eq!(CHUNK_EXTENT_XZ, 6);
    assert_eq!(CHUNK_EXTENT_Y, 4);
    assert_eq!(CHUNKS_XZ, 13);
    assert_eq!(CHUNKS_Y, 9);
    assert_eq!(CHUNK_COUNT, 13 * 13 * 9);
    assert_eq!(CHUNK_COUNT, 1521);
    assert_eq!(CHUNK_VOXELS_COUNT, (CHUNK_SIZE * CHUNK_SIZE * CHUNK_SIZE) as usize);
}

#[test]
fn slot_index_corners_and_axes() {
    let o = ChunkPos::new(0, 0, 0);
    assert_eq!(chunk_global_index(ChunkPos::new(-6, -4, -6), o), 0);
    assert_eq!(chunk_global_index(ChunkPos::new(6, 4, 6), o), 1520);
    assert_eq!(chunk_global_index(ChunkPos::new(0, 0, 0), o), 6 + 4 * 13 + 6 * 117);
    assert_eq!(chunk_global_index(ChunkPos::new(-5, -4, -6), o), 1);
    assert_eq!(chunk_global_index(ChunkPos::new(-6, -3, -6), o), 13);
    assert_eq!(chunk_global_index(ChunkPos::new(-6, -4, -5), o), 117);
}

#[test]
fn slot_index_is_relative_to_the_window_origin() {
    let o = ChunkPos::new(100, -50, 7);
    assert_eq!(chunk_global_index(ChunkPos::new(94, -54, 1), o), 0);
    assert_eq!(chunk_global_index(ChunkPos::new(106, -46, 13), o), 1520);
    assert_eq!(
        chunk_global_index(ChunkPos::new(101, -50, 7), o),
        chunk_global_index(ChunkPos::new(1, 0, 0), ChunkPos::new(0, 0, 0))
    );
}

#[test]
fn slot_index_is_injective_over_the_window() {
    let o = ChunkPos::new(-3, 9, 1000);
    let mut seen = vec![false; CHUNK_COUNT];
    for c in window_candidates(o) {
        let s = chunk_global_index(c, o) as usize;
        assert!(s < CHUNK_COUNT);
        assert!(!seen[s]);
        seen[s] = true;
    }
    assert!(seen.iter().all(|b| *b));
}

#[test]
fn candidates_visit_x_then_y_then_z() {
    let o = ChunkPos::new(10, 20, 30);
    let c = window_candidates(o);
    assert_eq!(c.len(), CHUNK_COUNT);
    assert_eq!(c[0], ChunkPos::new(4, 16, 24));
    assert_eq!(c[1], ChunkPos::new(4, 16, 25));
    assert_eq!(c[13], ChunkPos::new(4, 17, 24));
    assert_eq!(c[117], ChunkPos::new(5, 16, 24));
    assert_eq!(c[CHUNK_COUNT - 1], ChunkPos::new(16, 24, 36));
}

#[test]
fn window_origin_range_check() {
    assert!(window_origin_in_range(ChunkPos::new(0, 0, 0)));
    assert!(window_origin_in_range(ChunkPos::new(i32::MAX - 6, i32::MIN + 4, 0)));
    assert!(!window_origin_in_range(ChunkPos::new(i32::MAX - 5, 0, 0)));
    assert!(!window_origin_in_range(ChunkPos::new(0, i32::MIN + 3, 0)));
    assert!(!window_origin_in_range(ChunkPos::new(0, 0, i32::MIN)));
}

#[test]
fn no_camera_keeps_previous_list() {
    let mut visible = VisibleChunks {
        chunks: vec![(ChunkPos::new(1, 2, 3), 42), sentinel()],
    };
    chunks_partition(&mut visible, None);
    assert_eq!(visible.chunks, vec![(ChunkPos::new(1, 2, 3), 42), sentinel()]);

    let mut fresh = VisibleChunks::default();
    chunks_partition(&mut fresh, None);
    assert_eq!(fresh.chunks, vec![sentinel(); CHUNK_COUNT]);
}

#[test]
fn new_list_is_full_of_sentinels() {
    let visible = VisibleChunks::new();
    assert_eq!(visible.chunks.len(), CHUNK_COUNT);
    assert!(visible.chunks.iter().all(|e| *e == sentinel()));
}

#[test]
fn frustum_excluding_everything_gives_only_sentinels() {
    let mut visible = VisibleChunks::new();
    visible.chunks.push((ChunkPos::new(1, 2, 3), 42));
    let cam = view(ChunkPos::new(5, 5, 5), vec![false; CHUNK_COUNT]);
    chunks_partition(&mut visible, Some(&cam));
    assert_eq!(visible.chunks.len(), CHUNK_COUNT);
    assert!(visible.chunks.iter().all(|e| *e == sentinel()));
}

#[test]
fn every_candidate_visible_fills_the_list() {
    let o = ChunkPos::new(-1, 2, -3);
    let mut visible = VisibleChunks::new();
    let cam = view(o, vec![true; CHUNK_COUNT]);
    chunks_partition(&mut visible, Some(&cam));
    assert_eq!(visible.chunks.len(), CHUNK_COUNT);
    let candidates = window_candidates(o);
    for k in 0..CHUNK_COUNT {
        assert_eq!(visible.chunks[k].0, candidates[k]);
        assert_eq!(visible.chunks[k].1, chunk_global_index(candidates[k], o));
        assert_ne!(visible.chunks[k].1, SENTINEL_INDEX);
    }
    assert_eq!(visible.chunks[0], (ChunkPos::new(-7, -2, -9), 0));
}

#[test]
fn visible_entries_are_packed_then_sentinels() {
    let o = ChunkPos::new(0, 0, 0);
    let mut hits = vec![false; CHUNK_COUNT];
    hits[5] = true;
    hits[700] = true;
    let mut visible = VisibleChunks::new();
    chunks_partition(&mut visible, Some(&view(o, hits)));
    assert_eq!(visible.chunks.len(), CHUNK_COUNT);
    // candidate 5: offset (-6, -4, -1); candidate 700: offset (-1, 4, 11 - 6)
    assert_eq!(visible.chunks[0], (ChunkPos::new(-6, -4, -1), 5 * 117));
    assert_eq!(visible.chunks[1], (ChunkPos::new(-1, 4, 5), 5 + 8 * 13 + 11 * 117));
    for k in 2..CHUNK_COUNT {
        assert_eq!(visible.chunks[k], sentinel());
    }
}

#[test]
fn selection_is_deterministic() {
    let o = ChunkPos::new(3, -7, 12);
    let hits: Vec<bool> = (0..CHUNK_COUNT).map(|k| k % 7 == 0 || k % 11 == 3).collect();
    let cam = view(o, hits.clone());
    let mut first = VisibleChunks::new();
    let mut second = VisibleChunks::new();
    second.chunks.push((ChunkPos::new(9, 9, 9), 1));
    chunks_partition(&mut first, Some(&cam));
    chunks_partition(&mut second, Some(&view(o, hits)));
    assert_eq!(first.chunks, second.chunks);
    let count = first.chunks.iter().filter(|e| e.1 != SENTINEL_INDEX).count();
    let expected = (0..CHUNK_COUNT).filter(|k| k % 7 == 0 || k % 11 == 3).count();
    assert_eq!(count, expected);
    assert!(first.chunks[count..].iter().all(|e| *e == sentinel()));
}

#[test]
fn selection_replaces_a_previous_frame() {
    let mut visible = VisibleChunks::new();
    chunks_partition(&mut visible, Some(&view(ChunkPos::new(0, 0, 0), vec![true; CHUNK_COUNT])));
    chunks_partition(&mut visible, Some(&view(ChunkPos::new(0, 0, 0), vec![false; CHUNK_COUNT])));
    assert_eq!(visible.chunks.len(), CHUNK_COUNT);
    assert!(visible.chunks.iter().all(|e| *e == sentinel()));
}
