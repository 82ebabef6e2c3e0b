//! Pipeline construction: a shader interface plus fixed layout contracts.
//!
//! Building a pipeline checks, at build time and never at draw time, that
//! the shader declares the two fixed entry points and that the binding
//! layouts supplied match the shader's declared slots 1:1 in index order.
//! The primitive state is hard-coded policy, not configuration: any
//! variation requires a new pipeline.

use vstd::prelude::*;
use crate::binding::{layouts_match, BindingEntry};
use crate::error::RenderError;
use crate::vertex::{INSTANCE_STRIDE_BYTES, VERTEX_STRIDE_BYTES};

verus! {

/// What a compiled shader declares: its entry points and the binding slots
/// it expects, in slot order.
pub struct ShaderInterface {
    /// The fixed vertex entry point is present in the shader text.
    pub has_vertex_entry: bool,
    /// The fixed fragment entry point is present in the shader text.
    pub has_fragment_entry: bool,
    /// The binding entries the shader expects, in slot order.
    pub bindings: Vec<BindingEntry>,
}

/// The layout of one vertex buffer: its stride and its step mode.
#[derive(Clone, Copy, Debug, PartialEq, Eq, Structural)]
pub struct VertexLayoutDesc {
    /// Bytes between consecutive elements.
    pub stride: u32,
    /// Stepped once per instance rather than once per vertex.
    pub per_instance: bool,
}

/// The layout of the per-vertex attribute buffer: 24 bytes per vertex.
pub fn vertex_buffer_layout() -> (l: VertexLayoutDesc)
    ensures
        l.stride == VERTEX_STRIDE_BYTES,
        !l.per_instance,
{
    VertexLayoutDesc { stride: VERTEX_STRIDE_BYTES, per_instance: false }
}

/// The layout of the per-instance buffer: 64 bytes per record, stepped once
/// per instance.
pub fn instance_buffer_layout() -> (l: VertexLayoutDesc)
    ensures
        l.stride == INSTANCE_STRIDE_BYTES,
        l.per_instance,
{
    VertexLayoutDesc { stride: INSTANCE_STRIDE_BYTES, per_instance: true }
}

/// An executable pipeline: the layouts it was built against and its fixed
/// primitive-state policy.
pub struct Pipeline {
    /// The binding layouts, in slot order, as validated at build time.
    pub bindings: Vec<BindingEntry>,
    /// The vertex buffer layouts, in buffer order.
    pub vertex_layouts: Vec<VertexLayoutDesc>,
    /// Counter-clockwise triangles are front faces.
    pub front_face_ccw: bool,
    /// Back faces are culled.
    pub cull_back_faces: bool,
    /// Triangles are filled, not outlined.
    pub filled_triangles: bool,
    /// A depth/stencil test is performed.
    pub depth_test: bool,
    /// Samples per pixel.
    pub sample_count: u32,
    /// The opaque replace blend: output overwrites the target.
    pub blend_replace: bool,
}

impl Pipeline {
    /// Compile-time checks succeeded and the fixed policy is in force.
    pub open spec fn wf(self) -> bool {
        &&& self.front_face_ccw
        &&& self.cull_back_faces
        &&& self.filled_triangles
        &&& !self.depth_test
        &&& self.sample_count == 1
        &&& self.blend_replace
    }

    /// Build a pipeline from a shader interface and the layout contracts.
    ///
    /// Succeeds exactly when both fixed entry points are present and the
    /// binding layouts match the shader's declared slots; a missing entry
    /// point is reported before a binding mismatch.
    pub fn build(
        shader: &ShaderInterface,
        vertex_layouts: Vec<VertexLayoutDesc>,
        binding_layouts: Vec<BindingEntry>,
    ) -> (r: Result<Pipeline, RenderError>)
        ensures
            r is Ok <==> (shader.has_vertex_entry && shader.has_fragment_entry
                && shader.bindings@ =~= binding_layouts@),
            r matches Ok(p) ==> {
                &&& p.bindings@ == binding_layouts@
                &&& p.vertex_layouts@ == vertex_layouts@
                &&& p.wf()
            },
            r matches Err(e) ==> e == (if !(shader.has_vertex_entry && shader.has_fragment_entry) {
                RenderError::ShaderEntryPointMissing
            } else {
                RenderError::BindingMismatch
            }),
    {
        if !shader.has_vertex_entry || !shader.has_fragment_entry {
            return Err(RenderError::ShaderEntryPointMissing);
        }
        if !layouts_match(&shader.bindings, &binding_layouts) {
            return Err(RenderError::BindingMismatch);
        }
        Ok(
            Pipeline {
                bindings: binding_layouts,
                vertex_layouts,
                front_face_ccw: true,
                cull_back_faces: true,
                filled_triangles: true,
                depth_test: false,
                sample_count: 1,
                blend_replace: true,
            },
        )
    }
}

} // verus!
