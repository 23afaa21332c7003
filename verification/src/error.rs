//! The failures the pipeline reports.

use vstd::prelude::*;

verus! {

/// Why an operation of the pipeline was abandoned. None of these is
/// recoverable: the operation that met it has changed nothing.
#[derive(Clone, Copy, Debug, PartialEq, Eq, Structural)]
pub enum RenderError {
    /// The data of a source asset does not describe drawable geometry.
    AssetLoad,
    /// A device resource that was asked for does not exist.
    GpuResource,
    /// A uniform that was referred to is not part of the linked program.
    ShaderUniform,
}

impl RenderError {
    /// A one-line description for diagnostics.
    pub fn message(&self) -> (s: &'static str)
        ensures
            s@ == (match *self {
                RenderError::AssetLoad => "asset load error: malformed source asset"@,
                RenderError::GpuResource => "gpu resource error: no such device resource"@,
                RenderError::ShaderUniform => "shader uniform error: uniform not in the linked program"@,
            }),
    {
        match self {
            RenderError::AssetLoad => "asset load error: malformed source asset",
            RenderError::GpuResource => "gpu resource error: no such device resource",
            RenderError::ShaderUniform => "shader uniform error: uniform not in the linked program",
        }
    }
}

} // verus!
