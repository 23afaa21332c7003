//! Render resource and pipeline core of a voxel-based global illumination
//! renderer.
//!
//! The library owns no graphics context. It keeps the device-resident mirror
//! of the scene as plain values (handles, counts, transforms), decides what
//! has to be uploaded when a mesh is submitted, and lays out every frame as
//! an ordered list of commands. A backend executes those lists against the
//! graphics API.
//!
//! Real numbers travel through the library as IEEE 754 single-precision bit
//! patterns; see [`numeric`].

pub mod camera;
pub mod command;
pub mod error;
pub mod frame;
pub mod gpu_mesh;
pub mod input;
pub mod laws;
pub mod light;
pub mod mode;
pub mod names;
pub mod numeric;
pub mod renderer;
pub mod scene;
pub mod shader;
pub mod state;
pub mod texture;
pub mod volume;
