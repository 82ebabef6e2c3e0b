//! Error taxonomy of the renderer core.

use vstd::prelude::*;

verus! {

/// Errors signalled by the renderer core.
///
/// `InvalidGeometry` and `OutOfRange` are logic errors, reported immediately
/// and never silently clamped. `ShaderEntryPointMissing` and
/// `BindingMismatch` are configuration-time failures: the pipeline shape is
/// fixed at build time, so there is no recovery path.
#[derive(Clone, Copy, Debug, PartialEq, Eq, Structural)]
pub enum RenderError {
    /// A mesh index referenced a nonexistent vertex.
    InvalidGeometry,
    /// An instance offset was at or past the end of the instance list.
    OutOfRange,
    /// The shader interface lacks the fixed vertex or fragment entry point.
    ShaderEntryPointMissing,
    /// The binding layouts do not match the shader's declared slots.
    BindingMismatch,
}

impl RenderError {
    /// A short diagnostic name for the error.
    pub fn describe(&self) -> (r: &'static str)
        ensures
            *self is InvalidGeometry ==> r@ == "index out of range of the vertex list"@,
            *self is OutOfRange ==> r@ == "instance offset out of range"@,
            *self is ShaderEntryPointMissing ==> r@ == "shader entry point missing"@,
            *self is BindingMismatch ==> r@ == "binding layout mismatch"@,
    {
        match self {
            RenderError::InvalidGeometry => "index out of range of the vertex list",
            RenderError::OutOfRange => "instance offset out of range",
            RenderError::ShaderEntryPointMissing => "shader entry point missing",
            RenderError::BindingMismatch => "binding layout mismatch",
        }
    }
}

} // verus!
