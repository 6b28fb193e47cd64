//! Per-frame decisions of the GPU work: the binding set of the compute
//! programs, the two compute dispatches, and the draw over the vertex buffer.
//! Each is skipped as a whole for the frame when a resource it needs is not
//! ready yet.

use vstd::prelude::*;
use crate::buffers::{upload_spec, vertex_capacity, VERTICES_PER_VOXEL};
use crate::visibility::selected_list;
use crate::window::ChunkPos;
use crate::window::{lemma_window_capacity, CHUNK_COUNT, CHUNK_SIZE, CHUNK_VOXELS_COUNT};

verus! {

/// A resource bound for the compute programs.
#[derive(Clone, Copy, Debug, PartialEq, Eq, Structural)]
pub enum GridBinding {
    Globals,
    ChunkIdentity,
    DensityField,
    VertexOutput,
}

/// How a compute program may access a binding.
#[derive(Clone, Copy, Debug, PartialEq, Eq, Structural)]
pub enum BindingAccess {
    Uniform,
    ReadOnly,
    ReadWrite,
}

/// The bindings of the compute programs' layout, in binding order.
pub open spec fn bind_group_layout_spec() -> Seq<(GridBinding, BindingAccess)> {
    seq![
        (GridBinding::Globals, BindingAccess::Uniform),
        (GridBinding::ChunkIdentity, BindingAccess::ReadOnly),
        (GridBinding::DensityField, BindingAccess::ReadWrite),
        (GridBinding::VertexOutput, BindingAccess::ReadWrite),
    ]
}

/// The bind group layout shared by both compute programs.
pub fn compute_bind_group_layout() -> (r: Vec<(GridBinding, BindingAccess)>)
    ensures
        r@ == bind_group_layout_spec(),
{
    let mut r: Vec<(GridBinding, BindingAccess)> = Vec::new();
    r.push((GridBinding::Globals, BindingAccess::Uniform));
    r.push((GridBinding::ChunkIdentity, BindingAccess::ReadOnly));
    r.push((GridBinding::DensityField, BindingAccess::ReadWrite));
    r.push((GridBinding::VertexOutput, BindingAccess::ReadWrite));
    assert(r@ =~= bind_group_layout_spec());
    r
}

/// The binding set for this frame: the globals and the three buffers, in
/// layout order, when all three buffers are realized; none otherwise.
pub open spec fn bind_group_spec(chunks_ready: bool, voxels_ready: bool, vertices_ready: bool) -> Option<
    Seq<GridBinding>,
> {
    if chunks_ready && voxels_ready && vertices_ready {
        Some(
            seq![
                GridBinding::Globals,
                GridBinding::ChunkIdentity,
                GridBinding::DensityField,
                GridBinding::VertexOutput,
            ],
        )
    } else {
        None
    }
}

/// Entries of the compute binding set for this frame, if it can be built.
pub fn prepare_bind_group(chunks_ready: bool, voxels_ready: bool, vertices_ready: bool) -> (r:
    Option<Vec<GridBinding>>)
    ensures
        r is Some <==> bind_group_spec(chunks_ready, voxels_ready, vertices_ready) is Some,
        r matches Some(b) ==> Some(b@) == bind_group_spec(chunks_ready, voxels_ready, vertices_ready),
{
    if !(chunks_ready && voxels_ready && vertices_ready) {
        return None;
    }
    let mut b: Vec<GridBinding> = Vec::new();
    b.push(GridBinding::Globals);
    b.push(GridBinding::ChunkIdentity);
    b.push(GridBinding::DensityField);
    b.push(GridBinding::VertexOutput);
    assert(b@ =~= bind_group_spec(chunks_ready, voxels_ready, vertices_ready)->0);
    Some(b)
}

/// The two compute programs.
#[derive(Clone, Copy, Debug, PartialEq, Eq, Structural)]
pub enum ComputeStage {
    /// Fills the density field of every slot.
    DensityGeneration,
    /// Reads the density field and writes the vertex records of every slot.
    VertexExtraction,
}

/// One dispatch: the program and the number of workgroups along each axis.
#[derive(Clone, Copy, Debug, PartialEq, Eq, Structural)]
pub struct Dispatch {
    pub stage: ComputeStage,
    pub x: u32,
    pub y: u32,
    pub z: u32,
}

/// Workgroup edge of the density program.
pub const DENSITY_WORKGROUP_SIZE: u32 = 4;

/// Workgroup width of the extraction program along x.
pub const VERTEX_WORKGROUP_X: u32 = 8;

/// Workgroup width of the extraction program along y.
pub const VERTEX_WORKGROUP_Y: u32 = 8;

/// Density pass: workgroups covering a chunk's voxels along x and y, and
/// along z every slot of the window times the groups per chunk edge.
pub open spec fn density_dispatch_spec() -> Dispatch {
    Dispatch {
        stage: ComputeStage::DensityGeneration,
        x: CHUNK_SIZE / DENSITY_WORKGROUP_SIZE,
        y: CHUNK_SIZE / DENSITY_WORKGROUP_SIZE,
        z: (CHUNK_COUNT * (CHUNK_SIZE / DENSITY_WORKGROUP_SIZE)) as u32,
    }
}

/// Extraction pass: workgroups covering the `CHUNK_SIZE - 1` cells of a chunk
/// along x and y (rounded up), and one layer per slot of the window along z.
pub open spec fn vertex_dispatch_spec() -> Dispatch {
    Dispatch {
        stage: ComputeStage::VertexExtraction,
        x: ((CHUNK_SIZE - 1 + VERTEX_WORKGROUP_X - 1) / (VERTEX_WORKGROUP_X as int)) as u32,
        y: ((CHUNK_SIZE - 1 + VERTEX_WORKGROUP_Y - 1) / (VERTEX_WORKGROUP_Y as int)) as u32,
        z: CHUNK_COUNT as u32,
    }
}

/// The compute work of a frame: the density pass, then the extraction pass,
/// in one pass of one submission; or nothing at all when either program or
/// the binding set is missing.
pub open spec fn compute_plan_spec(
    density_ready: bool,
    extraction_ready: bool,
    bind_group_ready: bool,
) -> Option<Seq<Dispatch>> {
    if density_ready && extraction_ready && bind_group_ready {
        Some(seq![density_dispatch_spec(), vertex_dispatch_spec()])
    } else {
        None
    }
}

/// The density dispatch over the whole window.
pub fn density_dispatch() -> (r: Dispatch)
    ensures
        r == density_dispatch_spec(),
        r.x * DENSITY_WORKGROUP_SIZE == CHUNK_SIZE,
        r.z == CHUNK_COUNT * r.x,
        r.x == 4 && r.y == 4 && r.z == 6084,
{
    let per_axis = CHUNK_SIZE / DENSITY_WORKGROUP_SIZE;
    Dispatch {
        stage: ComputeStage::DensityGeneration,
        x: per_axis,
        y: per_axis,
        z: CHUNK_COUNT as u32 * per_axis,
    }
}

/// The extraction dispatch over the whole window.
pub fn vertex_dispatch() -> (r: Dispatch)
    ensures
        r == vertex_dispatch_spec(),
        r.x * VERTEX_WORKGROUP_X >= CHUNK_SIZE - 1,
        r.y * VERTEX_WORKGROUP_Y >= CHUNK_SIZE - 1,
        r.z == CHUNK_COUNT,
        r.x == 2 && r.y == 2 && r.z == 1521,
{
    let x = (CHUNK_SIZE - 1 + VERTEX_WORKGROUP_X - 1) / VERTEX_WORKGROUP_X;
    let y = (CHUNK_SIZE - 1 + VERTEX_WORKGROUP_Y - 1) / VERTEX_WORKGROUP_Y;
    Dispatch { stage: ComputeStage::VertexExtraction, x, y, z: CHUNK_COUNT as u32 }
}

/// The dispatches to record for this frame, in order, if any.
pub fn plan_compute_pass(density_ready: bool, extraction_ready: bool, bind_group_ready: bool) -> (r:
    Option<Vec<Dispatch>>)
    ensures
        r is Some <==> compute_plan_spec(density_ready, extraction_ready, bind_group_ready) is Some,
        r matches Some(p) ==> Some(p@) == compute_plan_spec(
            density_ready,
            extraction_ready,
            bind_group_ready,
        ),
{
    if !(density_ready && extraction_ready && bind_group_ready) {
        return None;
    }
    let mut p: Vec<Dispatch> = Vec::new();
    p.push(density_dispatch());
    p.push(vertex_dispatch());
    assert(p@ =~= seq![density_dispatch_spec(), vertex_dispatch_spec()]);
    Some(p)
}

/// One non-indexed draw.
#[derive(Clone, Copy, Debug, PartialEq, Eq, Structural)]
pub struct DrawCall {
    pub first_vertex: u32,
    pub vertex_count: u32,
    pub instance_count: u32,
}

/// The draw of a frame: one instance spanning the full vertex capacity of the
/// window, whatever is visible; nothing when the vertex buffer, the render
/// program or a color target is missing.
pub open spec fn draw_plan_spec(vertex_buffer_ready: bool, pipeline_ready: bool, has_target: bool) -> Option<DrawCall> {
    if vertex_buffer_ready && pipeline_ready && has_target {
        Some(DrawCall { first_vertex: 0, vertex_count: vertex_capacity() as u32, instance_count: 1 })
    } else {
        None
    }
}

/// The draw to issue on the first color target this frame, if any.
pub fn plan_draw(vertex_buffer_ready: bool, pipeline_ready: bool, has_target: bool) -> (r: Option<
    DrawCall,
>)
    ensures
        r == draw_plan_spec(vertex_buffer_ready, pipeline_ready, has_target),
        r matches Some(d) ==> d.vertex_count == 18690048,
{
    if !(vertex_buffer_ready && pipeline_ready && has_target) {
        return None;
    }
    proof {
        lemma_window_capacity();
    }
    let count = CHUNK_COUNT as u32 * CHUNK_VOXELS_COUNT as u32 * VERTICES_PER_VOXEL as u32;
    Some(DrawCall { first_vertex: 0, vertex_count: count, instance_count: 1 })
}

/// Within one frame's compute work the density pass is recorded ahead of the
/// extraction pass, in the same pass, and both span every slot of the window.
pub proof fn lemma_density_before_extraction(
    density_ready: bool,
    extraction_ready: bool,
    bind_group_ready: bool,
)
    ensures
        compute_plan_spec(density_ready, extraction_ready, bind_group_ready) matches Some(p) ==> {
            &&& p.len() == 2
            &&& p[0].stage == ComputeStage::DensityGeneration
            &&& p[1].stage == ComputeStage::VertexExtraction
            &&& p[0].z == CHUNK_COUNT * p[0].x
            &&& p[1].z == CHUNK_COUNT
        },
{
    lemma_window_capacity();
}

/// A frame in which a resource is not ready changes nothing that the skipped
/// work would have written: without a camera the visible list stays as it
/// was; without a realized chunk-identity buffer nothing is uploaded; without
/// all three buffers no binding set is made; and unless both programs and the
/// binding set are ready neither compute pass runs, so the density and vertex
/// buffers keep their contents.
pub proof fn lemma_skipped_frame_stability(
    prev: Seq<(ChunkPos, u32)>,
    camera: Option<(ChunkPos, Seq<bool>)>,
    chunks_ready: bool,
    voxels_ready: bool,
    vertices_ready: bool,
    density_ready: bool,
    extraction_ready: bool,
    bind_group_ready: bool,
)
    ensures
        camera is None ==> selected_list(prev, camera) == prev,
        !chunks_ready ==> upload_spec(selected_list(prev, camera), chunks_ready) is None,
        !(chunks_ready && voxels_ready && vertices_ready) ==> bind_group_spec(
            chunks_ready,
            voxels_ready,
            vertices_ready,
        ) is None,
        !(density_ready && extraction_ready && bind_group_ready) ==> compute_plan_spec(
            density_ready,
            extraction_ready,
            bind_group_ready,
        ) is None,
{
}

} // verus!
