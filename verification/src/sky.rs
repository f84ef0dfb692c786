//! The skybox node.
//!
//! A sky owns a mesh, a material whose binding was resolved against the
//! registry once at construction, and a name. Construction fails with an
//! identifiable error when the named bind-group layout is missing; drawing
//! fails likewise for the named pipeline, and skips the frame silently
//! only in the one documented case: a camera without a bind group.

use vstd::prelude::*;

use crate::draw::{BindGroupRole, DrawCommand, DrawPass, MeshIndexFormat};
use crate::registry::{BindGroupLayoutHandle, PipelineHandle, RenderServer};
use crate::transform::Mat4Fx;

verus! {

/// Handle to a cube texture the caller loaded; opaque to the crate.
#[derive(Clone, Copy, PartialEq, Eq, Structural, Debug)]
pub struct CubeTextureHandle {
    pub id: u32,
}

/// A rotation, stored as four integer lanes; the sky starts unrotated.
#[derive(Clone, Copy, PartialEq, Eq, Structural, Debug)]
pub struct Quat4i {
    pub w: i32,
    pub x: i32,
    pub y: i32,
    pub z: i32,
}

/// A descriptor-set-like binding object: the layout it was resolved
/// against and the texture it pairs with that layout, if any.
#[derive(Clone, Copy, PartialEq, Eq, Structural, Debug)]
pub struct MaterialBinding {
    pub layout: BindGroupLayoutHandle,
    pub texture: Option<CubeTextureHandle>,
}

/// The sky's material: name, owned cube texture, resolved binding.
pub struct MaterialSky {
    pub name: String,
    pub texture: CubeTextureHandle,
    pub binding: MaterialBinding,
}

/// The sky's mesh, built by the caller; one indexed draw covers it.
#[derive(Clone, Copy, PartialEq, Eq, Structural, Debug)]
pub struct SkyboxMesh {
    pub index_count: u32,
}

/// What the active 3D camera hands each drawable: a projection and, once
/// the camera's GPU resources exist, its resolved bind group (an opaque
/// caller-side id).
pub struct CameraInfo {
    pub projection: Mat4Fx,
    pub bind_group: Option<u32>,
}

/// A named GPU resource was missing where a node needed it.
#[derive(Debug)]
pub enum SceneError {
    /// No bind-group layout was registered under this name.
    MissingBindGroupLayout { name: String },
    /// No render pipeline was registered under this name.
    MissingRenderPipeline { name: String },
}

impl SceneError {
    /// The name of the resource that was missing.
    pub fn resource_name(&self) -> (n: &String)
        ensures
            (match self {
                SceneError::MissingBindGroupLayout { name } => n == name,
                SceneError::MissingRenderPipeline { name } => n == name,
            }),
    {
        match self {
            SceneError::MissingBindGroupLayout { name } => name,
            SceneError::MissingRenderPipeline { name } => name,
        }
    }

    /// A short label for the kind of fault.
    pub fn describe(&self) -> String {
        match self {
            SceneError::MissingBindGroupLayout { .. } => "missing bind group layout".to_owned(),
            SceneError::MissingRenderPipeline { .. } => "missing render pipeline".to_owned(),
        }
    }
}

/// The skybox node.
pub struct Sky {
    pub rotation: Quat4i,
    pub mesh: SkyboxMesh,
    pub material: MaterialSky,
    pub name: String,
}

/// The command sequence of one skybox draw: the named pipeline, the sky's
/// buffers, camera group at slot 0, material group at slot 1, one indexed
/// draw over the whole mesh.
pub open spec fn sky_draw_commands(h: PipelineHandle, index_count: u32) -> Seq<DrawCommand> {
    seq![DrawCommand::SetPipeline { pipeline: h }] + sky_binding_commands(index_count)
}

/// The binding steps of a skybox draw, after its pipeline was selected.
pub open spec fn sky_binding_commands(index_count: u32) -> Seq<DrawCommand> {
    seq![
        DrawCommand::SetVertexBuffer,
        DrawCommand::SetIndexBuffer { format: MeshIndexFormat::Uint32 },
        DrawCommand::SetBindGroup { slot: 0, group: BindGroupRole::CameraUniform },
        DrawCommand::SetBindGroup { slot: 1, group: BindGroupRole::Material },
        DrawCommand::DrawIndexed { index_count, instance_count: 1 },
    ]
}

/// How [`Sky::draw`] leaves the pass and what it returns: a skipped frame
/// when the camera has no bind group, an identifiable error when the
/// pipeline is unregistered, else exactly the skybox command sequence.
pub open spec fn sky_draw_post(
    sky: &Sky,
    old_pass: DrawPass,
    new_pass: DrawPass,
    camera_info: &CameraInfo,
    server: &RenderServer,
    r: Result<bool, SceneError>,
) -> bool {
    &&& (camera_info.bind_group is None ==> r == Result::<bool, SceneError>::Ok(false) && new_pass
        == old_pass)
    &&& (camera_info.bind_group is Some && !server.has_pipeline("skybox pipeline"@) ==> {
        &&& r is Err
        &&& (r->Err_0 matches SceneError::MissingRenderPipeline { name } && name@
            == "skybox pipeline"@)
        &&& new_pass == old_pass
    })
    &&& (camera_info.bind_group is Some && server.has_pipeline("skybox pipeline"@) ==> {
        &&& r == Result::<bool, SceneError>::Ok(true)
        &&& new_pass.issued()
        &&& new_pass.wf()
        &&& exists|h: PipelineHandle|
            {
                &&& #[trigger] new_pass.recorded() == old_pass.recorded() + sky_draw_commands(
                    h,
                    sky.mesh.index_count,
                )
                &&& h.id < server.pipelines_view().len()
                &&& server.pipelines_view()[h.id as int] == "skybox pipeline"@
                &&& forall|j: int|
                    0 <= j < h.id ==> #[trigger] server.pipelines_view()[j] != "skybox pipeline"@
            }
    })
}

impl Sky {
    /// Build a sky node: resolve the material's binding against the
    /// registry's "skybox texture bind group layout". Construction aborts
    /// with the missing name when the layout was never registered.
    pub fn new(server: &RenderServer, texture: CubeTextureHandle, mesh: SkyboxMesh) -> (r: Result<
        Sky,
        SceneError,
    >)
        ensures
            !server.has_layout("skybox texture bind group layout"@) ==> {
                &&& r is Err
                &&& (r->Err_0 matches SceneError::MissingBindGroupLayout { name } && name@
                    == "skybox texture bind group layout"@)
            },
            server.has_layout("skybox texture bind group layout"@) ==> {
                &&& r is Ok
                &&& r->Ok_0.name@ == "sky"@
                &&& r->Ok_0.rotation == (Quat4i { w: 0, x: 0, y: 0, z: 0 })
                &&& r->Ok_0.mesh == mesh
                &&& r->Ok_0.material.name@ == "sky material"@
                &&& r->Ok_0.material.texture == texture
                &&& r->Ok_0.material.binding.texture == Some(texture)
                &&& r->Ok_0.material.binding.layout.id < server.layouts_view().len()
                &&& server.layouts_view()[r->Ok_0.material.binding.layout.id as int]
                    == "skybox texture bind group layout"@
            },
    {
        let layout_name = "skybox texture bind group layout".to_owned();
        match server.get_bind_group_layout(&layout_name) {
            None => Err(SceneError::MissingBindGroupLayout { name: layout_name }),
            Some(layout) => {
                let material = MaterialSky {
                    name: "sky material".to_owned(),
                    texture,
                    binding: MaterialBinding { layout, texture: Some(texture) },
                };
                Ok(
                    Sky {
                        rotation: Quat4i { w: 0, x: 0, y: 0, z: 0 },
                        mesh,
                        material,
                        name: "sky".to_owned(),
                    },
                )
            },
        }
    }

    /// Draw the sky for one frame. A camera without a bind group skips the
    /// draw for this frame only; an unregistered "skybox pipeline" is an
    /// identifiable error; otherwise the full binding protocol runs and
    /// one indexed draw is issued.
    pub fn draw(&self, pass: &mut DrawPass, camera_info: &CameraInfo, server: &RenderServer) -> (r:
        Result<bool, SceneError>)
        ensures
            sky_draw_post(self, *old(pass), *final(pass), camera_info, server, r),
    {
        match &camera_info.bind_group {
            None => Ok(false),
            Some(_) => {
                let pipeline_name = "skybox pipeline".to_owned();
                match server.get_render_pipeline(&pipeline_name) {
                    None => Err(SceneError::MissingRenderPipeline { name: pipeline_name }),
                    Some(h) => {
                        pass.set_pipeline(h);
                        draw_skybox(pass, &self.mesh);
                        proof {
                            assert(pass.recorded() =~= old(pass).recorded() + sky_draw_commands(
                                h,
                                self.mesh.index_count,
                            ));
                        }
                        Ok(true)
                    },
                }
            },
        }
    }
}

/// The skybox binding steps after its pipeline was selected: the mesh's
/// buffers, camera group at slot 0, material group at slot 1, one indexed
/// draw covering the whole mesh.
pub fn draw_skybox(pass: &mut DrawPass, mesh: &SkyboxMesh)
    requires
        old(pass).wf(),
        old(pass).pipeline_selected(),
        !old(pass).issued(),
    ensures
        final(pass).recorded() == old(pass).recorded() + sky_binding_commands(mesh.index_count),
        final(pass).issued(),
        final(pass).wf(),
{
    pass.set_vertex_buffer();
    pass.set_index_buffer(MeshIndexFormat::Uint32);
    pass.bind_camera_group();
    pass.bind_material_group();
    pass.draw_indexed(mesh.index_count);
    proof {
        assert(pass.recorded() =~= old(pass).recorded() + sky_binding_commands(mesh.index_count));
    }
}

} // verus!
