//! Light sources.

use crate::numeric::MINUS_ONE;
use crate::numeric::ONE;
use crate::numeric::Vec3;
use crate::numeric::ZERO;
use vstd::prelude::*;

verus! {

/// A directional light.
#[derive(Clone, Copy, Debug, PartialEq, Eq)]
pub struct Light {
    /// The direction in which the light travels. Meant to have unit length;
    /// the pipeline passes it on as it is.
    pub direction: Vec3,
    /// The color of the light, one component per channel.
    pub color: Vec3,
}

impl Light {
    /// White light that falls straight down.
    pub open spec fn sun_spec() -> Light {
        Light {
            direction: Vec3 { x: ZERO, y: MINUS_ONE, z: ZERO },
            color: Vec3 { x: ONE, y: ONE, z: ONE },
        }
    }

    /// White light that falls straight down.
    pub fn sun() -> (light: Light)
        ensures
            light == Light::sun_spec(),
    {
        Light {
            direction: Vec3 { x: ZERO, y: MINUS_ONE, z: ZERO },
            color: Vec3 { x: ONE, y: ONE, z: ONE },
        }
    }
}

} // verus!
