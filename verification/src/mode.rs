//! The two independent switches that select how a frame is shaded.

use vstd::prelude::*;

verus! {

/// What the draw pass shows. `Scene` is the fully shaded image; the others
/// show one intermediate quantity each.
#[derive(Clone, Copy, Debug, PartialEq, Eq, Structural)]
pub enum RenderingMode {
    Albedo,
    Normal,
    Emission,
    Radiance,
    Scene,
}

/// How geometry is written into the voxel grid.
#[derive(Clone, Copy, Debug, PartialEq, Eq, Structural)]
pub enum VoxelizationMode {
    FragmentOnly,
    Hybrid,
}

} // verus!
