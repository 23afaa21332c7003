//! What the pipeline tells the backend to do.
//!
//! A submission yields uploads, which create device resources; a frame
//! yields commands, which only use them. Both name resources by handles that
//! the pipeline hands out: the backend keeps the device objects in tables
//! indexed by the handle's `id`.

use crate::error::RenderError;
use crate::light::Light;
use crate::mode::RenderingMode;
use crate::mode::VoxelizationMode;
use crate::numeric::Mat4;
use crate::numeric::Vec3;
use crate::shader::UniformName;
use vstd::prelude::*;

verus! {

/// Names a texture of the texture cache: the position of its source in the
/// cache.
#[derive(Clone, Copy, Debug, PartialEq, Eq, Structural)]
pub struct TextureHandle {
    pub id: usize,
}

/// Names the vertex and index buffer pair of one primitive: the position of
/// the primitive among all primitives submitted so far.
#[derive(Clone, Copy, Debug, PartialEq, Eq, Structural)]
pub struct GeometryHandle {
    pub id: usize,
}

/// One step of a frame or of the initial setup.
#[derive(Clone, Copy, Debug, PartialEq, Eq)]
pub enum Command {
    /// Put the fixed-function state into its default configuration.
    SetDefaults,
    /// Choose which winding order faces the viewer.
    FrontFace { clockwise: bool },
    /// Map clip space to a window area of this size, anchored at the origin.
    Viewport { width: usize, height: usize },
    /// Choose the color that cleared pixels get.
    ClearColor { red: u32, green: u32, blue: u32, alpha: u32 },
    /// Clear the chosen buffers of the framebuffer.
    Clear { color: bool, depth: bool, stencil: bool },
    /// Make the shading program current.
    UseProgram,
    /// Set a scalar uniform of the current program.
    SetFloat { uniform: UniformName, value: u32 },
    /// Set a 4x4 matrix uniform of the current program, column-major.
    SetMat4 { uniform: UniformName, matrix: Mat4 },
    /// Select what the draw pass shows.
    SetRenderingMode { rendering: RenderingMode },
    /// Run the voxelization pass over this box and grid.
    SetVoxelization {
        voxelization: VoxelizationMode,
        translation: Vec3,
        scaling: Vec3,
        view_translation: Vec3,
        view_scaling: Vec3,
        resolution: u32,
    },
    /// Describe one light to the current program.
    SetLight { index: usize, light: Light },
    /// Make the buffers of one primitive current.
    BindGeometry { geometry: GeometryHandle },
    /// Place the primitive that is drawn next.
    SetTransform { translation: Vec3, scaling: Vec3 },
    /// Bind a texture to a texture unit and point a sampler at that unit.
    BindTexture { sampler: UniformName, texture: TextureHandle, unit: u32 },
    /// Draw the current buffers as an indexed triangle list with 32-bit
    /// indices, starting at the first index.
    DrawTriangles { index_count: usize },
}

/// Create a texture from the image that `source` identifies.
#[derive(Clone, Debug, PartialEq, Eq)]
pub struct TextureUpload {
    pub handle: TextureHandle,
    pub source: String,
}

/// Create the buffer pair of one primitive. `vertices` is interleaved as
/// [`crate::gpu_mesh::interleaved`] lays it out.
#[derive(Clone, Debug, PartialEq, Eq)]
pub struct GeometryUpload {
    pub handle: GeometryHandle,
    pub vertices: Vec<u32>,
    pub indices: Vec<u32>,
}

/// What the backend reports once it has tried to carry out uploads.
#[derive(Clone, Copy, Debug, PartialEq, Eq, Structural)]
pub enum UploadReport {
    /// Every resource was created.
    Done,
    /// The image of a source could not be decoded.
    DecodeFailed,
    /// The device could not allocate a buffer or a texture.
    AllocationFailed,
}

impl UploadReport {
    /// The error that a report stands for; `None` for a success.
    pub open spec fn error(self) -> Option<RenderError> {
        match self {
            UploadReport::Done => None,
            UploadReport::DecodeFailed => Some(RenderError::AssetLoad),
            UploadReport::AllocationFailed => Some(RenderError::GpuResource),
        }
    }

    /// Computes [`UploadReport::error`].
    pub fn to_error(&self) -> (r: Option<RenderError>)
        ensures
            r == self.error(),
    {
        match self {
            UploadReport::Done => None,
            UploadReport::DecodeFailed => Some(RenderError::AssetLoad),
            UploadReport::AllocationFailed => Some(RenderError::GpuResource),
        }
    }
}

} // verus!
