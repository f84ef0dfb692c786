//! Scene nodes and their dispatch.
//!
//! The node set is closed: a tagged union over the drawable kinds, with
//! explicit match dispatch for identity, per-frame update and draw. A
//! caller that needs a variant's own fields downcasts through the typed
//! accessors.

use vstd::prelude::*;

use crate::camera2d::Camera2d;
use crate::draw::DrawPass;
use crate::registry::RenderServer;
use crate::sky::{sky_draw_post, CameraInfo, SceneError, Sky};
use crate::transform::{uniform_den, uniform_num, Camera2dUniform, Mat4Fx, VIEW_LIMIT};
use crate::vector_sprite::{path_draw_commands, VectorSprite};

verus! {

/// The identity tag of a scene node.
#[derive(Clone, Copy, PartialEq, Eq, Structural, Debug)]
pub enum NodeType {
    Camera2d,
    Sky,
    VectorSprite,
}

/// A scene node: one of the closed set of drawable kinds.
pub enum SceneNode {
    Camera2d(Camera2d),
    Sky(Sky),
    VectorSprite(VectorSprite),
}

impl SceneNode {
    /// The node's identity tag.
    pub fn node_type(&self) -> (t: NodeType)
        ensures
            t == (match self {
                SceneNode::Camera2d(_) => NodeType::Camera2d,
                SceneNode::Sky(_) => NodeType::Sky,
                SceneNode::VectorSprite(_) => NodeType::VectorSprite,
            }),
    {
        match self {
            SceneNode::Camera2d(_) => NodeType::Camera2d,
            SceneNode::Sky(_) => NodeType::Sky,
            SceneNode::VectorSprite(_) => NodeType::VectorSprite,
        }
    }

    /// Downcast to the 2D camera variant.
    pub fn as_camera2d(&self) -> (r: Option<&Camera2d>)
        ensures
            (match self {
                SceneNode::Camera2d(c) => r == Some(c),
                _ => r is None,
            }),
    {
        match self {
            SceneNode::Camera2d(c) => Some(c),
            _ => None,
        }
    }

    /// Downcast to the sky variant.
    pub fn as_sky(&self) -> (r: Option<&Sky>)
        ensures
            (match self {
                SceneNode::Sky(s) => r == Some(s),
                _ => r is None,
            }),
    {
        match self {
            SceneNode::Sky(s) => Some(s),
            _ => None,
        }
    }

    /// Downcast to the vector-sprite variant.
    pub fn as_vector_sprite(&self) -> (r: Option<&VectorSprite>)
        ensures
            (match self {
                SceneNode::VectorSprite(s) => r == Some(s),
                _ => r is None,
            }),
    {
        match self {
            SceneNode::VectorSprite(s) => Some(s),
            _ => None,
        }
    }

    /// What a per-frame update needs of this node's state: only the
    /// sprite recomputes anything, and its arithmetic needs the bounds.
    pub open spec fn update_pre(&self, camera: &Camera2d, projection: &Mat4Fx) -> bool {
        match self {
            SceneNode::VectorSprite(s) => {
                &&& s.wf()
                &&& projection.wf()
                &&& 1 <= camera.view_size.width <= VIEW_LIMIT
                &&& 1 <= camera.view_size.height <= VIEW_LIMIT
            },
            _ => true,
        }
    }

    /// Per-frame update dispatch: a sprite recomposes its camera uniform,
    /// which the caller must queue before the node's draw is recorded;
    /// the other kinds have no dynamic state and yield nothing.
    pub fn update(&self, camera: &Camera2d, projection: &Mat4Fx) -> (r: Option<Camera2dUniform>)
        requires
            self.update_pre(camera, projection),
        ensures
            (match self {
                SceneNode::VectorSprite(s) => {
                    &&& r is Some
                    &&& r->Some_0.wf()
                    &&& r->Some_0.den == uniform_den(
                        camera.view_size.width,
                        camera.view_size.height,
                    )
                    &&& forall|k: int|
                        0 <= k < 16 ==> #[trigger] r->Some_0.num@[k] == uniform_num(
                            projection.m@,
                            s.scale_x,
                            s.scale_y,
                            s.position.x,
                            s.position.y,
                            camera.view_size.width,
                            camera.view_size.height,
                            k,
                        )
                },
                _ => r is None,
            }),
    {
        match self {
            SceneNode::VectorSprite(s) => Some(s.update(camera, projection)),
            _ => None,
        }
    }

    /// What a draw needs of the pass: the sky selects its own pipeline;
    /// the sprite draws with the pipeline the scene selected beforehand.
    pub open spec fn draw_pre(&self, pass: &DrawPass) -> bool {
        match self {
            SceneNode::VectorSprite(_) => {
                &&& pass.wf()
                &&& pass.pipeline_selected()
                &&& !pass.issued()
            },
            _ => true,
        }
    }

    /// Draw dispatch: the camera is a state source and draws nothing; the
    /// sky runs its own protocol; the sprite records its binding sequence.
    /// `Ok(true)` says a draw was recorded for this frame.
    pub fn draw(
        &self,
        pass: &mut DrawPass,
        camera_info: &CameraInfo,
        server: &RenderServer,
    ) -> (r: Result<bool, SceneError>)
        requires
            self.draw_pre(old(pass)),
        ensures
            (match self {
                SceneNode::Camera2d(_) => r == Result::<bool, SceneError>::Ok(false) && *final(pass)
                    == *old(pass),
                SceneNode::Sky(s) => sky_draw_post(
                    s,
                    *old(pass),
                    *final(pass),
                    camera_info,
                    server,
                    r,
                ),
                SceneNode::VectorSprite(s) => {
                    &&& r == Result::<bool, SceneError>::Ok(true)
                    &&& final(pass).recorded() == old(pass).recorded() + path_draw_commands(
                        s.mesh.index_count,
                    )
                    &&& final(pass).issued()
                    &&& final(pass).wf()
                },
            }),
    {
        match self {
            SceneNode::Camera2d(_) => Ok(false),
            SceneNode::Sky(s) => s.draw(pass, camera_info, server),
            SceneNode::VectorSprite(s) => {
                s.draw(pass);
                Ok(true)
            },
        }
    }
}

} // verus!
