//! The per-draw binding protocol.
//!
//! One draw goes through a fixed sequence: select a pipeline, bind the
//! vertex buffer, bind the index buffer, bind the bind groups in slot
//! order — camera uniform at slot 0, material at slot 1 — and only then
//! issue exactly one indexed draw. [`DrawPass`] records the commands and
//! carries the protocol state; its preconditions make an out-of-order step
//! unverifiable, and [`DrawPass::try_draw_indexed`] refuses one at run
//! time. The caller replays the recorded commands on a real render pass.

use vstd::prelude::*;

use crate::registry::PipelineHandle;

verus! {

/// Which resolved bind group a recorded binding refers to. The replaying
/// caller supplies the drawing node's actual group for each role.
#[derive(Clone, Copy, PartialEq, Eq, Structural, Debug)]
pub enum BindGroupRole {
    /// The node's camera-uniform bind group (slot 0).
    CameraUniform,
    /// The node's material/texture bind group (slot 1).
    Material,
}

/// Width of the indices in a mesh's index buffer.
#[derive(Clone, Copy, PartialEq, Eq, Structural, Debug)]
pub enum MeshIndexFormat {
    /// 16-bit indices.
    Uint16,
    /// 32-bit indices.
    Uint32,
}

/// One recorded render-pass command. Buffers are the drawing node's own;
/// the replaying caller resolves them.
#[derive(Clone, Copy, PartialEq, Eq, Structural, Debug)]
pub enum DrawCommand {
    /// Select a registered pipeline.
    SetPipeline { pipeline: PipelineHandle },
    /// Bind the node's mesh vertex buffer at vertex-buffer slot 0.
    SetVertexBuffer,
    /// Bind the node's mesh index buffer.
    SetIndexBuffer { format: MeshIndexFormat },
    /// Bind a resolved bind group at a slot.
    SetBindGroup { slot: u32, group: BindGroupRole },
    /// Issue one indexed draw over the whole index range.
    DrawIndexed { index_count: u32, instance_count: u32 },
}

/// A recording render pass for one node's draw.
pub struct DrawPass {
    commands: Vec<DrawCommand>,
    pipeline_selected: bool,
    vertex_bound: bool,
    index_bound: bool,
    camera_bound: bool,
    material_bound: bool,
    issued: bool,
}

/// Why a draw could not be issued.
#[derive(Clone, Copy, PartialEq, Eq, Structural, Debug)]
pub enum ProtocolError {
    /// A binding step of the protocol had not been taken yet.
    BindingIncomplete,
    /// The one indexed draw of this protocol run was already issued.
    AlreadyIssued,
}

impl DrawPass {
    /// The commands recorded so far.
    pub closed spec fn recorded(&self) -> Seq<DrawCommand> {
        self.commands@
    }

    /// A pipeline selection opened the current protocol run.
    pub closed spec fn pipeline_selected(&self) -> bool {
        self.pipeline_selected
    }

    /// The vertex buffer is bound in the current run.
    pub closed spec fn vertex_bound(&self) -> bool {
        self.vertex_bound
    }

    /// The index buffer is bound in the current run.
    pub closed spec fn index_bound(&self) -> bool {
        self.index_bound
    }

    /// The camera bind group sits at slot 0 in the current run.
    pub closed spec fn camera_bound(&self) -> bool {
        self.camera_bound
    }

    /// A material bind group sits at slot 1 in the current run.
    pub closed spec fn material_bound(&self) -> bool {
        self.material_bound
    }

    /// The current run's one indexed draw was issued.
    pub closed spec fn issued(&self) -> bool {
        self.issued
    }

    /// The protocol's order: each step presupposes the ones before it.
    pub open spec fn wf(&self) -> bool {
        &&& (self.vertex_bound() ==> self.pipeline_selected())
        &&& (self.index_bound() ==> self.vertex_bound())
        &&& (self.camera_bound() ==> self.index_bound())
        &&& (self.material_bound() ==> self.camera_bound())
        &&& (self.issued() ==> self.camera_bound())
    }

    /// Read access to the recorded commands, for replay.
    pub fn commands(&self) -> (c: &Vec<DrawCommand>)
        ensures
            c@ == self.recorded(),
    {
        &self.commands
    }

    /// Whether the current run already issued its draw.
    pub fn is_issued(&self) -> (b: bool)
        ensures
            b == self.issued(),
    {
        self.issued
    }

    /// Whether the protocol allows issuing the draw right now.
    pub fn ready(&self) -> (b: bool)
        ensures
            b == self.ready_to_issue(),
    {
        self.camera_bound && !self.issued
    }

    /// A fresh pass with nothing recorded.
    pub fn new() -> (pass: Self)
        ensures
            pass.recorded() == Seq::<DrawCommand>::empty(),
            !pass.pipeline_selected(),
            !pass.vertex_bound(),
            !pass.index_bound(),
            !pass.camera_bound(),
            !pass.material_bound(),
            !pass.issued(),
            pass.wf(),
    {
        DrawPass {
            commands: Vec::new(),
            pipeline_selected: false,
            vertex_bound: false,
            index_bound: false,
            camera_bound: false,
            material_bound: false,
            issued: false,
        }
    }

    /// Select a pipeline: the first step, opening a new protocol run. All
    /// later steps are owed again before the run's draw.
    pub fn set_pipeline(&mut self, pipeline: PipelineHandle)
        ensures
            final(self).recorded() == old(self).recorded().push(
                DrawCommand::SetPipeline { pipeline },
            ),
            final(self).pipeline_selected(),
            !final(self).vertex_bound(),
            !final(self).index_bound(),
            !final(self).camera_bound(),
            !final(self).material_bound(),
            !final(self).issued(),
            final(self).wf(),
    {
        self.commands.push(DrawCommand::SetPipeline { pipeline });
        self.pipeline_selected = true;
        self.vertex_bound = false;
        self.index_bound = false;
        self.camera_bound = false;
        self.material_bound = false;
        self.issued = false;
    }

    /// Bind the node's vertex buffer: only after a pipeline is selected.
    pub fn set_vertex_buffer(&mut self)
        requires
            old(self).wf(),
            old(self).pipeline_selected(),
            !old(self).issued(),
        ensures
            final(self).recorded() == old(self).recorded().push(DrawCommand::SetVertexBuffer),
            final(self).pipeline_selected(),
            final(self).vertex_bound(),
            !final(self).index_bound(),
            !final(self).camera_bound(),
            !final(self).material_bound(),
            !final(self).issued(),
            final(self).wf(),
    {
        self.commands.push(DrawCommand::SetVertexBuffer);
        self.vertex_bound = true;
        self.index_bound = false;
        self.camera_bound = false;
        self.material_bound = false;
    }

    /// Bind the node's index buffer: only after the vertex buffer.
    pub fn set_index_buffer(&mut self, format: MeshIndexFormat)
        requires
            old(self).wf(),
            old(self).vertex_bound(),
            !old(self).issued(),
        ensures
            final(self).recorded() == old(self).recorded().push(
                DrawCommand::SetIndexBuffer { format },
            ),
            final(self).pipeline_selected(),
            final(self).vertex_bound(),
            final(self).index_bound(),
            !final(self).camera_bound(),
            !final(self).material_bound(),
            !final(self).issued(),
            final(self).wf(),
    {
        self.commands.push(DrawCommand::SetIndexBuffer { format });
        self.index_bound = true;
        self.camera_bound = false;
        self.material_bound = false;
    }

    /// Bind the camera-uniform group at slot 0: only after the buffers.
    pub fn bind_camera_group(&mut self)
        requires
            old(self).wf(),
            old(self).index_bound(),
            !old(self).issued(),
        ensures
            final(self).recorded() == old(self).recorded().push(
                DrawCommand::SetBindGroup { slot: 0, group: BindGroupRole::CameraUniform },
            ),
            final(self).pipeline_selected(),
            final(self).vertex_bound(),
            final(self).index_bound(),
            final(self).camera_bound(),
            !final(self).material_bound(),
            !final(self).issued(),
            final(self).wf(),
    {
        self.commands.push(DrawCommand::SetBindGroup { slot: 0, group: BindGroupRole::CameraUniform });
        self.camera_bound = true;
        self.material_bound = false;
    }

    /// Bind a material group at slot 1: only after the camera group, so the
    /// slot order is fixed crate-wide.
    pub fn bind_material_group(&mut self)
        requires
            old(self).wf(),
            old(self).camera_bound(),
            !old(self).issued(),
        ensures
            final(self).recorded() == old(self).recorded().push(
                DrawCommand::SetBindGroup { slot: 1, group: BindGroupRole::Material },
            ),
            final(self).pipeline_selected(),
            final(self).vertex_bound(),
            final(self).index_bound(),
            final(self).camera_bound(),
            final(self).material_bound(),
            !final(self).issued(),
            final(self).wf(),
    {
        self.commands.push(DrawCommand::SetBindGroup { slot: 1, group: BindGroupRole::Material });
        self.material_bound = true;
    }

    /// Whether the run may issue its draw: every required binding step is
    /// done and the run has not drawn yet.
    pub open spec fn ready_to_issue(&self) -> bool {
        self.camera_bound() && !self.issued()
    }

    /// Issue the run's one indexed draw over the whole index range, one
    /// instance. Statically impossible before the binding steps complete.
    pub fn draw_indexed(&mut self, index_count: u32)
        requires
            old(self).wf(),
            old(self).ready_to_issue(),
        ensures
            final(self).recorded() == old(self).recorded().push(
                DrawCommand::DrawIndexed { index_count, instance_count: 1 },
            ),
            final(self).issued(),
            final(self).pipeline_selected(),
            final(self).vertex_bound(),
            final(self).index_bound(),
            final(self).camera_bound(),
            final(self).material_bound() == old(self).material_bound(),
            final(self).wf(),
    {
        self.commands.push(DrawCommand::DrawIndexed { index_count, instance_count: 1 });
        self.issued = true;
    }

    /// The run-time guard of the same rule: issue the draw when the
    /// protocol allows it, refuse with the reason when it does not, leaving
    /// the recording untouched.
    pub fn try_draw_indexed(&mut self, index_count: u32) -> (r: Result<(), ProtocolError>)
        requires
            old(self).wf(),
        ensures
            old(self).ready_to_issue() ==> {
                &&& r == Result::<(), ProtocolError>::Ok(())
                &&& final(self).recorded() == old(self).recorded().push(
                    DrawCommand::DrawIndexed { index_count, instance_count: 1 },
                )
                &&& final(self).issued()
            },
            old(self).issued() ==> r == Result::<(), ProtocolError>::Err(
                ProtocolError::AlreadyIssued,
            ) && *final(self) == *old(self),
            !old(self).camera_bound() ==> r == Result::<(), ProtocolError>::Err(
                ProtocolError::BindingIncomplete,
            ) && *final(self) == *old(self),
            final(self).wf(),
    {
        if self.issued {
            return Err(ProtocolError::AlreadyIssued);
        }
        if !self.camera_bound {
            return Err(ProtocolError::BindingIncomplete);
        }
        self.draw_indexed(index_count);
        Ok(())
    }
}

} // verus!
