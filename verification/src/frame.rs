//! The per-frame step: acquire, publish, draw, or recover.
//!
//! Each frame the runner first tries to acquire the next presentable
//! surface image and reports the outcome here. Only a successful
//! acquisition publishes the camera uniform and records the one
//! indexed-instanced draw call, covering the full index range and the full
//! current instance count; the overlay then appends its own commands into
//! the same pass, after the scene. A lost surface asks for exactly one
//! reconfiguration and touches nothing else; an out-of-memory surface ends
//! the run; any other transient failure skips the frame. A dropped frame
//! leaves no cross-frame state inconsistent, so the next frame proceeds
//! independently.

use vstd::prelude::*;
use crate::binding::camera_layout_seq;
use crate::camera::CameraParams;
use crate::geometry::GeometryBuffer;
use crate::instance::InstanceBuffer;
use crate::material::MaterialBinding;
use crate::pipeline::Pipeline;

verus! {

/// The outcome of acquiring the next presentable surface image.
#[derive(Clone, Copy, Debug, PartialEq, Eq, Structural)]
pub enum SurfaceStatus {
    /// An image was acquired; the frame can be drawn and presented.
    Acquired,
    /// The surface was lost; it must be reconfigured before the next
    /// acquisition attempt.
    Lost,
    /// The device is out of memory; fatal.
    OutOfMemory,
    /// A transient failure; the frame is skipped.
    Transient,
}

/// The parameters of one indexed-instanced draw call.
#[derive(Clone, Copy, Debug, PartialEq, Eq, Structural)]
pub struct DrawCall {
    /// First index drawn.
    pub first_index: u32,
    /// Indices drawn.
    pub index_count: u32,
    /// First instance drawn.
    pub first_instance: u32,
    /// Instances drawn.
    pub instance_count: u32,
}

/// What the runner must do with the frame.
#[derive(Clone, Copy, Debug, PartialEq, Eq, Structural)]
pub enum FrameAction {
    /// Record the draw call, let the overlay append into the same pass,
    /// submit, present.
    Draw(DrawCall),
    /// Reconfigure the surface, then retry on the next frame.
    Reconfigure,
    /// Drop this frame and proceed to the next one.
    Skip,
    /// End the run loop.
    Terminate,
}

/// Everything one frame reads and writes: the camera and its binding, the
/// mesh, and the instance list.
pub struct FrameRenderer {
    pub camera: CameraParams,
    pub binding: MaterialBinding,
    pub geometry: GeometryBuffer,
    pub instances: InstanceBuffer,
    pub pipeline: Pipeline,
}

impl FrameRenderer {
    /// Every component is in sync, the pipeline was built against the
    /// camera's binding layout, and the instance count fits a draw
    /// parameter.
    pub open spec fn wf(self) -> bool {
        &&& self.binding.wf()
        &&& self.geometry.wf()
        &&& self.instances.wf()
        &&& self.pipeline.wf()
        &&& self.pipeline.bindings@ == camera_layout_seq()
        &&& self.instances.records@.len() <= u32::MAX
    }

    /// Assemble a renderer from its parts; the camera binding starts with
    /// the identity transform published.
    pub fn create(
        camera: CameraParams,
        geometry: GeometryBuffer,
        instances: InstanceBuffer,
        pipeline: Pipeline,
    ) -> (fr: FrameRenderer)
        requires
            geometry.wf(),
            instances.wf(),
            pipeline.wf(),
            pipeline.bindings@ == camera_layout_seq(),
            instances.records@.len() <= u32::MAX,
        ensures
            fr.wf(),
            fr.camera == camera,
            fr.geometry == geometry,
            fr.instances == instances,
            fr.pipeline == pipeline,
    {
        let binding = MaterialBinding::create();
        FrameRenderer { camera, binding, geometry, instances, pipeline }
    }

    /// Run one frame against the given acquisition outcome.
    ///
    /// The action is `Draw` exactly on `Acquired`, `Reconfigure` exactly on
    /// `Lost`, `Terminate` exactly on `OutOfMemory` and `Skip` exactly on
    /// `Transient`. Camera parameters, geometry and instance data are never
    /// frame-step state: they are unchanged whatever the outcome. Only a
    /// successful acquisition publishes `view_projection` to the camera
    /// binding — on every failure the binding, stale or not, is untouched.
    /// The draw call covers the full index range and the full current
    /// instance count.
    pub fn frame_step(&mut self, view_projection: &[u32; 16], status: SurfaceStatus) -> (a:
        FrameAction)
        requires
            old(self).wf(),
        ensures
            final(self).wf(),
            final(self).camera == old(self).camera,
            final(self).geometry == old(self).geometry,
            final(self).instances == old(self).instances,
            final(self).pipeline == old(self).pipeline,
            (a is Draw) <==> (status is Acquired),
            (a is Reconfigure) <==> (status is Lost),
            (a is Terminate) <==> (status is OutOfMemory),
            (a is Skip) <==> (status is Transient),
            status is Acquired ==> final(self).binding.block@ == view_projection@,
            !(status is Acquired) ==> final(self).binding == old(self).binding,
            a matches FrameAction::Draw(d) ==> d == (DrawCall {
                first_index: 0,
                index_count: old(self).geometry.num_indices,
                first_instance: 0,
                instance_count: old(self).instances.records@.len() as u32,
            }),
    {
        match status {
            SurfaceStatus::Lost => FrameAction::Reconfigure,
            SurfaceStatus::OutOfMemory => FrameAction::Terminate,
            SurfaceStatus::Transient => FrameAction::Skip,
            SurfaceStatus::Acquired => {
                self.binding.publish(view_projection);
                let d = DrawCall {
                    first_index: 0,
                    index_count: self.geometry.num_indices(),
                    first_instance: 0,
                    instance_count: self.instances.len() as u32,
                };
                FrameAction::Draw(d)
            },
        }
    }
}

} // verus!
