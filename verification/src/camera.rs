//! What the renderer reads of the camera.

use crate::numeric::Mat4;
use vstd::prelude::*;

verus! {

/// The two matrices of a camera at the moment a frame is laid out. The
/// camera itself, with its position and angles, belongs to the frame loop;
/// the renderer only reads what it produced.
#[derive(Clone, Copy, Debug, PartialEq, Eq)]
pub struct CameraMatrices {
    /// World space to camera space.
    pub view: Mat4,
    /// Camera space to clip space.
    pub projection: Mat4,
}

impl CameraMatrices {
    pub fn new(view: Mat4, projection: Mat4) -> (camera: CameraMatrices)
        ensures
            camera == (CameraMatrices { view, projection }),
    {
        CameraMatrices { view, projection }
    }
}

} // verus!
