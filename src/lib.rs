//! Streaming window of terrain chunks around a moving viewpoint: visibility
//! selection, slot indexing, GPU buffer layout and the per-frame decisions of
//! the compute and draw passes.

pub mod window;
pub mod visibility;
pub mod buffers;
pub mod passes;
