//! The vector-graphics sprite node.
//!
//! A sprite owns a path, the tessellation it produced, its transform state,
//! and the mesh built from the triangles. Construction runs the whole
//! pipeline — path, fill tessellation, vertex stream, mesh — and aborts on
//! the first fault rather than yield a degenerate node. Per frame, the
//! sprite recomposes its camera uniform from the active camera and records
//! its draw through the binding protocol.

use vstd::prelude::*;

use crate::camera2d::{Camera2d, Vec2i};
use crate::draw::{BindGroupRole, DrawCommand, DrawPass, MeshIndexFormat};
use crate::fill_backend::fill_of;
use crate::mesh::{build_mesh, build_vertex_stream, stream_byte, MeshError, VectorMesh};
use crate::path::{PathBuilder2d, PathSegment, VectorPath};
use crate::tess::{tessellate, tessellation_of, TessError, TessellationOutput};
use crate::transform::{
    compute_uniform, uniform_den, uniform_num, Camera2dUniform, Mat4Fx, POSITION_LIMIT, SCALE_LIMIT,
    SCALE_ONE, VIEW_LIMIT,
};

verus! {

/// Why sprite construction aborted.
#[derive(Clone, Copy, PartialEq, Eq, Structural, Debug)]
pub enum SpriteBuildError {
    /// The path could not be tessellated.
    Tessellation(TessError),
    /// The triangles could not be made into a mesh.
    Mesh(MeshError),
}

/// The demonstration path the sprite is built from: one closed loop with a
/// line, a quadratic and a cubic edge.
pub open spec fn demo_path_segments() -> Seq<PathSegment> {
    seq![
        PathSegment::MoveTo { x: 0, y: 0 },
        PathSegment::LineTo { x: 100, y: 0 },
        PathSegment::QuadraticTo { cx: 200, cy: 0, x: 200, y: 100 },
        PathSegment::CubicTo { c1x: 100, c1y: 100, c2x: 0, c2y: 100, x: 0, y: 0 },
        PathSegment::Close,
    ]
}

/// Build the demonstration path.
pub fn build_demo_path() -> (p: VectorPath)
    ensures
        p.wf(),
        p@ == demo_path_segments(),
        p.is_closed_spec(),
{
    let mut builder = PathBuilder2d::new();
    builder.begin(0, 0);
    builder.line_to(100, 0);
    builder.quadratic_bezier_to(200, 0, 200, 100);
    builder.cubic_bezier_to(100, 100, 0, 100, 0, 0);
    builder.end(true);
    let p = builder.build();
    proof {
        assert(p@ =~= demo_path_segments());
    }
    p
}

/// The vector sprite node.
pub struct VectorSprite {
    /// The path the sprite was built from; kept for re-tessellation.
    pub path: VectorPath,
    /// The tessellation the mesh was built from; kept for debugging.
    pub tessellation: TessellationOutput,
    /// Position in pixels, normalized by the camera's view size on update.
    pub position: Vec2i,
    /// Nominal size in pixels.
    pub size: Vec2i,
    /// Horizontal scale in 16.16 fixed point.
    pub scale_x: u32,
    /// Vertical scale in 16.16 fixed point.
    pub scale_y: u32,
    /// The sprite's GPU mesh data.
    pub mesh: VectorMesh,
}

impl VectorSprite {
    /// The sprite invariant: consistent mesh and tessellation, transform
    /// state within the bounds the uniform arithmetic needs.
    pub open spec fn wf(&self) -> bool {
        &&& self.path.wf()
        &&& self.tessellation.wf()
        &&& self.mesh.wf()
        &&& 1 <= self.scale_x <= SCALE_LIMIT
        &&& 1 <= self.scale_y <= SCALE_LIMIT
        &&& -POSITION_LIMIT <= self.position.x <= POSITION_LIMIT
        &&& -POSITION_LIMIT <= self.position.y <= POSITION_LIMIT
    }

    /// Build the sprite: demonstration path, fill tessellation, vertex
    /// stream, mesh. Aborts on the first fault; succeeds exactly when the
    /// backend accepts the path and yields a non-degenerate, drawable
    /// triangle list.
    pub fn new() -> (r: Result<VectorSprite, SpriteBuildError>)
        ensures
            !fill_of(demo_path_segments()).accepted ==> r == Result::<
                VectorSprite,
                SpriteBuildError,
            >::Err(SpriteBuildError::Tessellation(TessError::FillFailed)),
            fill_of(demo_path_segments()).accepted ==> {
                let outcome = fill_of(demo_path_segments());
                &&& outcome.vertex_data.len() == 0 ==> r == Result::<
                    VectorSprite,
                    SpriteBuildError,
                >::Err(SpriteBuildError::Mesh(MeshError::EmptyVertexArray))
                &&& outcome.vertex_data.len() > 0 && outcome.indices.len() > u32::MAX ==> r
                    == Result::<VectorSprite, SpriteBuildError>::Err(
                    SpriteBuildError::Mesh(MeshError::TooManyIndices),
                )
                &&& outcome.vertex_data.len() > 0 && outcome.indices.len() <= u32::MAX ==> {
                    &&& r is Ok
                    &&& r->Ok_0.wf()
                    &&& r->Ok_0.path@ == demo_path_segments()
                    &&& tessellation_of(demo_path_segments(), r->Ok_0.tessellation)
                    &&& r->Ok_0.position == (Vec2i { x: 0, y: 0 })
                    &&& r->Ok_0.size == (Vec2i { x: 128, y: 128 })
                    &&& r->Ok_0.scale_x == SCALE_ONE
                    &&& r->Ok_0.scale_y == SCALE_ONE
                    &&& r->Ok_0.mesh.name@ == "default 2d mesh"@
                    &&& r->Ok_0.mesh.vertex_count == r->Ok_0.tessellation.vertex_count
                    &&& r->Ok_0.mesh.indices@ == r->Ok_0.tessellation.indices@
                    &&& r->Ok_0.mesh.vertex_data@.len() == 20 * r->Ok_0.mesh.vertex_count
                    &&& forall|j: int|
                        0 <= j < r->Ok_0.mesh.vertex_data@.len()
                            ==> #[trigger] r->Ok_0.mesh.vertex_data@[j] == stream_byte(
                            r->Ok_0.tessellation.vertex_data@,
                            j,
                        )
                }
            },
    {
        let path = build_demo_path();
        let tessellation = match tessellate(&path) {
            Ok(t) => t,
            Err(e) => {
                return Err(SpriteBuildError::Tessellation(e));
            },
        };
        let vertex_data = build_vertex_stream(&tessellation.vertex_data, tessellation.vertex_count);
        let indices_copy = clone_indices(&tessellation.indices);
        let mesh = match build_mesh(
            "default 2d mesh".to_owned(),
            vertex_data,
            tessellation.vertex_count,
            indices_copy,
        ) {
            Ok(m) => m,
            Err(e) => {
                return Err(SpriteBuildError::Mesh(e));
            },
        };
        Ok(
            VectorSprite {
                path,
                tessellation,
                position: Vec2i { x: 0, y: 0 },
                size: Vec2i { x: 128, y: 128 },
                scale_x: SCALE_ONE,
                scale_y: SCALE_ONE,
                mesh,
            },
        )
    }

    /// Recompose the camera uniform for this frame:
    /// `camera projection x scale x translate(position / view size)`, as
    /// exact rationals. The caller writes it to the sprite's uniform
    /// buffer before the sprite's draw is recorded.
    pub fn update(&self, camera: &Camera2d, projection: &Mat4Fx) -> (u: Camera2dUniform)
        requires
            self.wf(),
            projection.wf(),
            1 <= camera.view_size.width <= VIEW_LIMIT,
            1 <= camera.view_size.height <= VIEW_LIMIT,
        ensures
            u.wf(),
            u.view_position@ == seq![0i64, 0i64, 0i64, 0i64],
            u.den == uniform_den(camera.view_size.width, camera.view_size.height),
            forall|k: int|
                0 <= k < 16 ==> #[trigger] u.num@[k] == uniform_num(
                    projection.m@,
                    self.scale_x,
                    self.scale_y,
                    self.position.x,
                    self.position.y,
                    camera.view_size.width,
                    camera.view_size.height,
                    k,
                ),
    {
        compute_uniform(
            projection,
            self.scale_x,
            self.scale_y,
            self.position.x,
            self.position.y,
            camera.view_size.width,
            camera.view_size.height,
        )
    }

    /// Record the sprite's draw: its buffers, its camera group at slot 0,
    /// one indexed draw. The vector pipeline must already be selected on
    /// the pass.
    pub fn draw(&self, pass: &mut DrawPass)
        requires
            old(pass).wf(),
            old(pass).pipeline_selected(),
            !old(pass).issued(),
        ensures
            final(pass).recorded() == old(pass).recorded() + path_draw_commands(
                self.mesh.index_count,
            ),
            final(pass).issued(),
            final(pass).wf(),
    {
        draw_path(pass, &self.mesh);
    }
}

/// Copy an index list for the mesh; the tessellation keeps its own.
fn clone_indices(indices: &Vec<u32>) -> (r: Vec<u32>)
    ensures
        r@ == indices@,
{
    let mut r: Vec<u32> = Vec::new();
    let mut i: usize = 0;
    while i < indices.len()
        invariant
            i <= indices@.len(),
            r@ == indices@.take(i as int),
        decreases indices@.len() - i,
    {
        let x = indices[i];
        r.push(x);
        proof {
            assert(indices@.take(i as int + 1) == indices@.take(i as int).push(indices@[i as int]));
        }
        i = i + 1;
    }
    proof {
        assert(indices@.take(indices@.len() as int) == indices@);
    }
    r
}

/// The command sequence of one vector-path draw: the node's buffers, its
/// camera group at slot 0, one indexed draw over the whole index range.
pub open spec fn path_draw_commands(index_count: u32) -> Seq<DrawCommand> {
    seq![
        DrawCommand::SetVertexBuffer,
        DrawCommand::SetIndexBuffer { format: MeshIndexFormat::Uint32 },
        DrawCommand::SetBindGroup { slot: 0, group: BindGroupRole::CameraUniform },
        DrawCommand::DrawIndexed { index_count, instance_count: 1 },
    ]
}

/// The vector-path binding steps after its pipeline was selected: mesh
/// buffers, camera group at slot 0, one indexed draw covering the mesh.
pub fn draw_path(pass: &mut DrawPass, mesh: &VectorMesh)
    requires
        old(pass).wf(),
        old(pass).pipeline_selected(),
        !old(pass).issued(),
    ensures
        final(pass).recorded() == old(pass).recorded() + path_draw_commands(mesh.index_count),
        final(pass).issued(),
        final(pass).wf(),
{
    pass.set_vertex_buffer();
    pass.set_index_buffer(MeshIndexFormat::Uint32);
    pass.bind_camera_group();
    pass.draw_indexed(mesh.index_count);
    proof {
        assert(pass.recorded() =~= old(pass).recorded() + path_draw_commands(mesh.index_count));
    }
}

} // verus!
