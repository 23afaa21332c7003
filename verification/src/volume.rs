//! The voxel volume: the box of world space that is voxelized, the box that
//! the grid is sampled through, and the resolution of the grid.

use crate::numeric::ONE;
use crate::numeric::Vec3;
use crate::numeric::ZERO;
use vstd::prelude::*;

verus! {

/// The smallest resolution on offer.
pub const RESOLUTION_LOW: i32 = 64;

/// The middle resolution on offer.
pub const RESOLUTION_MEDIUM: i32 = 128;

/// The largest resolution on offer.
pub const RESOLUTION_HIGH: i32 = 256;

/// Whether a resolution is one of those on offer.
pub open spec fn is_permitted_resolution(resolution: i32) -> bool {
    resolution == RESOLUTION_LOW || resolution == RESOLUTION_MEDIUM || resolution
        == RESOLUTION_HIGH
}

/// Decides [`is_permitted_resolution`].
pub fn permitted_resolution(resolution: i32) -> (r: bool)
    ensures
        r == is_permitted_resolution(resolution),
{
    resolution == RESOLUTION_LOW || resolution == RESOLUTION_MEDIUM || resolution
        == RESOLUTION_HIGH
}

/// The resolution on offer at a position of the list low, medium, high.
pub open spec fn resolution_at(index: usize) -> Option<i32> {
    if index == 0 {
        Some(RESOLUTION_LOW)
    } else if index == 1 {
        Some(RESOLUTION_MEDIUM)
    } else if index == 2 {
        Some(RESOLUTION_HIGH)
    } else {
        None
    }
}

/// The resolution on offer at a position of the list low, medium, high;
/// `None` beyond the list.
pub fn resolution_choice(index: usize) -> (r: Option<i32>)
    ensures
        r == resolution_at(index),
        r matches Some(resolution) ==> is_permitted_resolution(resolution),
{
    if index == 0 {
        Some(RESOLUTION_LOW)
    } else if index == 1 {
        Some(RESOLUTION_MEDIUM)
    } else if index == 2 {
        Some(RESOLUTION_HIGH)
    } else {
        None
    }
}

/// Two boxes and a grid resolution. Every field can be set to any value at
/// any time; [`VoxelVolume::is_usable`] says whether the result describes a
/// volume that can be voxelized.
#[derive(Clone, Copy, Debug, PartialEq, Eq)]
pub struct VoxelVolume {
    /// Center of the voxelized box in world space.
    pub translation: Vec3,
    /// Extent of the voxelized box along each axis.
    pub scaling: Vec3,
    /// Center of the box through which the grid is sampled.
    pub view_translation: Vec3,
    /// Extent of the box through which the grid is sampled.
    pub view_scaling: Vec3,
    /// Voxels per axis.
    pub resolution: i32,
}

impl VoxelVolume {
    /// The volume is not degenerate: the grid has at least one voxel per
    /// axis and both boxes have a positive extent along every axis.
    pub open spec fn is_usable(&self) -> bool {
        &&& self.resolution > 0
        &&& self.scaling.is_positive()
        &&& self.view_scaling.is_positive()
    }

    /// Decides [`VoxelVolume::is_usable`].
    pub fn usable(&self) -> (r: bool)
        ensures
            r == self.is_usable(),
    {
        self.resolution > 0 && self.scaling.positive() && self.view_scaling.positive()
    }

    /// The unit box at the origin, for voxelization and for sampling, with
    /// the given resolution.
    pub open spec fn unit(resolution: i32) -> VoxelVolume {
        VoxelVolume {
            translation: Vec3 { x: ZERO, y: ZERO, z: ZERO },
            scaling: Vec3 { x: ONE, y: ONE, z: ONE },
            view_translation: Vec3 { x: ZERO, y: ZERO, z: ZERO },
            view_scaling: Vec3 { x: ONE, y: ONE, z: ONE },
            resolution,
        }
    }

    /// The unit box at the origin with the given resolution. Any resolution
    /// is taken as it is; the volume is usable exactly when the resolution
    /// is positive, so in particular for every resolution on offer.
    pub fn new(resolution: i32) -> (volume: VoxelVolume)
        ensures
            volume == VoxelVolume::unit(resolution),
            volume.is_usable() <==> resolution > 0,
            is_permitted_resolution(resolution) ==> volume.is_usable(),
    {
        VoxelVolume {
            translation: Vec3::splat(ZERO),
            scaling: Vec3::splat(ONE),
            view_translation: Vec3::splat(ZERO),
            view_scaling: Vec3::splat(ONE),
            resolution,
        }
    }

    pub fn translation_mut(&mut self) -> (r: &mut Vec3)
        ensures
            *r == old(self).translation,
            *final(self) == (VoxelVolume { translation: *final(r), ..*old(self) }),
    {
        &mut self.translation
    }

    pub fn scaling_mut(&mut self) -> (r: &mut Vec3)
        ensures
            *r == old(self).scaling,
            *final(self) == (VoxelVolume { scaling: *final(r), ..*old(self) }),
    {
        &mut self.scaling
    }

    pub fn view_translation_mut(&mut self) -> (r: &mut Vec3)
        ensures
            *r == old(self).view_translation,
            *final(self) == (VoxelVolume { view_translation: *final(r), ..*old(self) }),
    {
        &mut self.view_translation
    }

    pub fn view_scaling_mut(&mut self) -> (r: &mut Vec3)
        ensures
            *r == old(self).view_scaling,
            *final(self) == (VoxelVolume { view_scaling: *final(r), ..*old(self) }),
    {
        &mut self.view_scaling
    }

    pub fn resolution_mut(&mut self) -> (r: &mut i32)
        ensures
            *r == old(self).resolution,
            *final(self) == (VoxelVolume { resolution: *final(r), ..*old(self) }),
    {
        &mut self.resolution
    }
}

} // verus!
