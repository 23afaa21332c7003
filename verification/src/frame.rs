//! The layout of a frame: which commands it is made of, in which order.

use crate::camera::CameraMatrices;
use crate::command::Command;
use crate::gpu_mesh::GpuPrimitiveView;
use crate::light::Light;
use crate::mode::RenderingMode;
use crate::mode::VoxelizationMode;
use crate::numeric::ONE;
use crate::shader::UniformName;
use crate::state::RendererView;
use crate::volume::VoxelVolume;
use vstd::prelude::*;

verus! {

/// Bit pattern of the red, green and blue component of the clear color, one
/// tenth.
pub const CLEAR_SHADE: u32 = 0x3DCC_CCCD;

/// The commands that open a frame: viewport, clear, program, camera and
/// rendering mode.
pub open spec fn prologue_commands(
    viewport: (usize, usize),
    camera: CameraMatrices,
    rendering_mode: RenderingMode,
) -> Seq<Command> {
    seq![
        Command::Viewport { width: viewport.0, height: viewport.1 },
        Command::ClearColor { red: CLEAR_SHADE, green: CLEAR_SHADE, blue: CLEAR_SHADE, alpha: ONE },
        Command::Clear { color: true, depth: true, stencil: true },
        Command::UseProgram,
        Command::SetMat4 { uniform: UniformName::Proj, matrix: camera.projection },
        Command::SetMat4 { uniform: UniformName::View, matrix: camera.view },
        Command::SetRenderingMode { rendering: rendering_mode },
    ]
}

/// The voxelization pass: one command for a usable volume, none for a
/// degenerate one.
pub open spec fn voxel_commands(volume: VoxelVolume, mode: VoxelizationMode) -> Seq<Command> {
    if volume.is_usable() {
        seq![
            Command::SetVoxelization {
                voxelization: mode,
                translation: volume.translation,
                scaling: volume.scaling,
                view_translation: volume.view_translation,
                view_scaling: volume.view_scaling,
                resolution: volume.resolution as u32,
            },
        ]
    } else {
        Seq::empty()
    }
}

/// One command per light, in order.
pub open spec fn light_commands(lights: Seq<Light>) -> Seq<Command> {
    Seq::new(lights.len(), |i: int| Command::SetLight { index: i as usize, light: lights[i] })
}

/// The commands that draw one primitive: bind its buffers, place it, bind
/// its four textures to the units zero to three, draw.
pub open spec fn draw_commands(p: GpuPrimitiveView) -> Seq<Command> {
    seq![
        Command::BindGeometry { geometry: p.geometry },
        Command::SetTransform { translation: p.translation, scaling: p.scaling },
        Command::BindTexture { sampler: UniformName::Albedo, texture: p.material.albedo, unit: 0 },
        Command::BindTexture {
            sampler: UniformName::Metaghness,
            texture: p.material.metaghness,
            unit: 1,
        },
        Command::BindTexture { sampler: UniformName::Normal, texture: p.material.normal, unit: 2 },
        Command::BindTexture {
            sampler: UniformName::Occlusion,
            texture: p.material.occlusion,
            unit: 3,
        },
        Command::DrawTriangles { index_count: p.index_count },
    ]
}

/// The commands that draw a sequence of primitives, one after the other.
pub open spec fn scene_commands(primitives: Seq<GpuPrimitiveView>) -> Seq<Command>
    decreases primitives.len(),
{
    if primitives.len() == 0 {
        Seq::empty()
    } else {
        scene_commands(primitives.drop_last()) + draw_commands(primitives.last())
    }
}

/// The frame for a renderer state and a camera.
pub open spec fn frame_commands(state: RendererView, camera: CameraMatrices) -> Seq<Command> {
    prologue_commands(state.viewport, camera, state.rendering_mode) + voxel_commands(
        state.volume,
        state.voxelization_mode,
    ) + light_commands(state.lights) + scene_commands(state.primitives)
}

/// The commands that prepare the device once, before the first frame.
pub open spec fn setup_commands(viewport: (usize, usize)) -> Seq<Command> {
    seq![
        Command::SetDefaults,
        Command::FrontFace { clockwise: true },
        Command::Viewport { width: viewport.0, height: viewport.1 },
        Command::UseProgram,
        Command::SetFloat { uniform: UniformName::Time, value: ONE },
    ]
}

} // verus!
