//! What holds of every frame and of every renderer state.

use crate::camera::CameraMatrices;
use crate::command::Command;
use crate::command::TextureUpload;
use crate::command::UploadReport;
use crate::frame::draw_commands;
use crate::frame::frame_commands;
use crate::frame::light_commands;
use crate::frame::prologue_commands;
use crate::frame::scene_commands;
use crate::frame::voxel_commands;
use crate::gpu_mesh::GpuMesh;
use crate::gpu_mesh::GpuPrimitiveView;
use crate::gpu_mesh::lemma_acquire_materials_grows;
use crate::gpu_mesh::uploads_cover;
use crate::mode::RenderingMode;
use crate::mode::VoxelizationMode;
use crate::numeric::Vec3;
use crate::scene::Primitive;
use crate::shader::sampler_unit;
use crate::state::after_settling;
use crate::state::is_latest;
use crate::state::is_resident;
use crate::state::RendererView;
use crate::state::submitted;
use crate::state::textures_below;
use crate::state::withdrawn;
use crate::volume::is_permitted_resolution;
use crate::volume::VoxelVolume;
use vstd::prelude::*;

verus! {

/// The position of the first draw command in the frame of a state.
pub open spec fn scene_start(state: RendererView) -> int {
    7 + (if state.volume.is_usable() {
        1int
    } else {
        0int
    }) + state.lights.len()
}

/// Whether a command only uses what a state has: a texture of the cache, a
/// buffer pair of a primitive, a light of the renderer, a uniform that the
/// program declares, and for a sampler the texture unit assigned to it.
pub open spec fn is_live(command: Command, state: RendererView) -> bool {
    match command {
        Command::SetFloat { uniform, .. } => state.uniforms.contains(uniform.name()),
        Command::SetMat4 { uniform, .. } => state.uniforms.contains(uniform.name()),
        Command::SetVoxelization { resolution, scaling, view_scaling, .. } => {
            &&& resolution > 0
            &&& scaling.is_positive()
            &&& view_scaling.is_positive()
        },
        Command::SetLight { index, .. } => index < state.lights.len(),
        Command::BindGeometry { geometry } => geometry.id < state.primitives.len(),
        Command::BindTexture { sampler, texture, unit } => {
            &&& state.uniforms.contains(sampler.name())
            &&& sampler_unit(sampler) == Some(unit)
            &&& texture.id < state.textures.len()
        },
        _ => true,
    }
}

/// Drawing takes seven commands per primitive, and step `k` of primitive
/// `i` stands at position `7 * i + k`.
pub proof fn lemma_scene_commands_index(primitives: Seq<GpuPrimitiveView>, i: int, k: int)
    requires
        0 <= i < primitives.len(),
        0 <= k < 7,
    ensures
        scene_commands(primitives).len() == 7 * primitives.len(),
        scene_commands(primitives)[7 * i + k] == draw_commands(primitives[i])[k],
    decreases primitives.len(),
{
    lemma_scene_commands_len(primitives.drop_last());
    if i < primitives.len() - 1 {
        lemma_scene_commands_index(primitives.drop_last(), i, k);
    }
}

/// Drawing takes seven commands per primitive.
pub proof fn lemma_scene_commands_len(primitives: Seq<GpuPrimitiveView>)
    ensures
        scene_commands(primitives).len() == 7 * primitives.len(),
    decreases primitives.len(),
{
    if primitives.len() > 0 {
        lemma_scene_commands_len(primitives.drop_last());
    }
}

/// The layout of a frame: seven opening commands, the voxelization pass if
/// the volume is usable, one command per light, seven commands per
/// primitive. Position by position, the frame is made of these parts.
pub proof fn lemma_frame_layout(state: RendererView, camera: CameraMatrices)
    ensures
        frame_commands(state, camera).len() == scene_start(state) + 7 * state.primitives.len(),
        forall|k: int|
            0 <= k < 7 ==> #[trigger] frame_commands(state, camera)[k] == prologue_commands(
                state.viewport,
                camera,
                state.rendering_mode,
            )[k],
        state.volume.is_usable() ==> frame_commands(state, camera)[7] == voxel_commands(
            state.volume,
            state.voxelization_mode,
        )[0],
        forall|j: int|
            0 <= j < state.lights.len() ==> #[trigger] frame_commands(
                state,
                camera,
            )[scene_start(state) - state.lights.len() + j] == light_commands(state.lights)[j],
        forall|i: int, k: int|
            0 <= i < state.primitives.len() && 0 <= k < 7 ==> #[trigger] frame_commands(
                state,
                camera,
            )[scene_start(state) + 7 * i + k] == draw_commands(state.primitives[i])[k],
{
    let frame = frame_commands(state, camera);
    lemma_scene_commands_len(state.primitives);
    assert forall|i: int, k: int|
        0 <= i < state.primitives.len() && 0 <= k < 7 implies #[trigger] frame[scene_start(state)
        + 7 * i + k] == draw_commands(state.primitives[i])[k] by {
        lemma_scene_commands_index(state.primitives, i, k);
    }
}

/// After the viewport was set to a size, every frame uses a viewport of
/// exactly that size: it opens by setting it and sets no other.
pub proof fn law_frame_uses_current_viewport(
    state: RendererView,
    camera: CameraMatrices,
    size: (usize, usize),
)
    ensures
        ({
            let resized = RendererView { viewport: size, ..state };
            let frame = frame_commands(resized, camera);
            let expected = Command::Viewport { width: size.0, height: size.1 };
            &&& frame.len() > 0
            &&& frame[0] == expected
            &&& forall|k: int| 0 <= k < frame.len() && frame[k] is Viewport ==> frame[k] == expected
        }),
{
    let resized = RendererView { viewport: size, ..state };
    let frame = frame_commands(resized, camera);
    lemma_frame_layout(resized, camera);
    assert forall|k: int| 0 <= k < frame.len() && frame[k] is Viewport implies k == 0 by {
        lemma_frame_position(resized, camera, k);
    }
}

/// Every position of a frame lies in one of its four parts.
pub proof fn lemma_frame_position(state: RendererView, camera: CameraMatrices, k: int)
    requires
        0 <= k < frame_commands(state, camera).len(),
    ensures
        ({
            let frame = frame_commands(state, camera);
            let start = scene_start(state);
            ||| (k < 7 && frame[k] == prologue_commands(
                state.viewport,
                camera,
                state.rendering_mode,
            )[k])
            ||| (k == 7 && state.volume.is_usable() && frame[k] == voxel_commands(
                state.volume,
                state.voxelization_mode,
            )[0])
            ||| (start - state.lights.len() <= k < start && frame[k] == light_commands(
                state.lights,
            )[k - (start - state.lights.len())])
            ||| (start <= k && (k - start) / 7 < state.primitives.len() && frame[k]
                == draw_commands(state.primitives[(k - start) / 7])[(k - start) % 7])
        }),
{
    lemma_frame_layout(state, camera);
    let start = scene_start(state);
    if k >= start {
        let i = (k - start) / 7;
        let r = (k - start) % 7;
        assert(k == start + 7 * i + r);
        lemma_scene_commands_index(state.primitives, i, r);
    } else if k >= start - state.lights.len() {
        let j = k - (start - state.lights.len());
        assert(k == start - state.lights.len() + j);
    }
}

/// A frame runs the voxelization pass exactly when the volume is usable,
/// then once, right after the opening commands and with the values of the
/// volume. With a resolution of zero or less, or a scaling that is not
/// positive, the frame has no voxelization command at all.
pub proof fn law_degenerate_volume_is_skipped(state: RendererView, camera: CameraMatrices)
    ensures
        ({
            let frame = frame_commands(state, camera);
            &&& forall|k: int|
                0 <= k < frame.len() && frame[k] is SetVoxelization ==> state.volume.is_usable()
                    && k == 7
            &&& state.volume.is_usable() ==> frame.len() > 7 && frame[7]
                == (Command::SetVoxelization {
                voxelization: state.voxelization_mode,
                translation: state.volume.translation,
                scaling: state.volume.scaling,
                view_translation: state.volume.view_translation,
                view_scaling: state.volume.view_scaling,
                resolution: state.volume.resolution as u32,
            }) && state.volume.resolution as u32 == state.volume.resolution
            &&& state.volume.resolution <= 0 ==> forall|k: int|
                0 <= k < frame.len() ==> !(frame[k] is SetVoxelization)
        }),
{
    let frame = frame_commands(state, camera);
    lemma_frame_layout(state, camera);
    assert forall|k: int| 0 <= k < frame.len() && frame[k] is SetVoxelization implies state.volume.is_usable()
        && k == 7 by {
        lemma_frame_position(state, camera, k);
    }
}

/// A volume takes every resolution on offer: with positive scalings it is
/// usable at each of them.
pub proof fn law_permitted_resolutions_are_usable(volume: VoxelVolume, resolution: i32)
    requires
        is_permitted_resolution(resolution),
        volume.scaling.is_positive(),
        volume.view_scaling.is_positive(),
    ensures
        (VoxelVolume { resolution, ..volume }).is_usable(),
        VoxelVolume::unit(resolution).is_usable(),
{
}

/// Changing the rendering mode changes one command of the frame, the one
/// that selects the mode, and nothing of the state besides the mode: no
/// primitive, texture or mesh is touched.
pub proof fn law_rendering_mode_changes_one_command(
    state: RendererView,
    camera: CameraMatrices,
    mode: RenderingMode,
)
    ensures
        frame_commands(RendererView { rendering_mode: mode, ..state }, camera) == frame_commands(
            state,
            camera,
        ).update(6, Command::SetRenderingMode { rendering: mode }),
{
    let switched = RendererView { rendering_mode: mode, ..state };
    let a = prologue_commands(state.viewport, camera, state.rendering_mode);
    let b = prologue_commands(state.viewport, camera, mode);
    assert(b =~= a.update(6, Command::SetRenderingMode { rendering: mode }));
    assert(frame_commands(switched, camera) =~= frame_commands(state, camera).update(
        6,
        Command::SetRenderingMode { rendering: mode },
    ));
}

/// Changing the voxelization mode changes at most the voxelization command
/// of the frame.
pub proof fn law_voxelization_mode_changes_one_command(
    state: RendererView,
    camera: CameraMatrices,
    mode: VoxelizationMode,
)
    ensures
        ({
            let switched = RendererView { voxelization_mode: mode, ..state };
            let frame = frame_commands(state, camera);
            let other = frame_commands(switched, camera);
            &&& other.len() == frame.len()
            &&& forall|k: int| 0 <= k < frame.len() && k != 7 ==> other[k] == frame[k]
            &&& !state.volume.is_usable() ==> other == frame
        }),
{
    let switched = RendererView { voxelization_mode: mode, ..state };
    let frame = frame_commands(state, camera);
    let other = frame_commands(switched, camera);
    lemma_frame_layout(state, camera);
    lemma_frame_layout(switched, camera);
    assert forall|k: int| 0 <= k < frame.len() && k != 7 implies other[k] == frame[k] by {
        lemma_frame_position(state, camera, k);
        lemma_frame_position(switched, camera, k);
    }
    if !state.volume.is_usable() {
        assert(other =~= frame);
    }
}

/// The frame depends on the state and the camera alone: laid out twice
/// with nothing changed in between, it is the same sequence of commands.
pub proof fn law_frames_repeat(
    state: RendererView,
    camera: CameraMatrices,
    first: Seq<Command>,
    second: Seq<Command>,
)
    requires
        first == frame_commands(state, camera),
        second == frame_commands(state, camera),
    ensures
        first == second,
{
}

/// In a consistent state, every command of a frame is live: nothing is
/// bound or drawn that was not created, every uniform that is set is
/// declared by the program, and each sampler reads from its own unit.
pub proof fn law_frame_is_live(state: RendererView, camera: CameraMatrices)
    requires
        state.wf(),
    ensures
        forall|k: int|
            0 <= k < frame_commands(state, camera).len() ==> is_live(
                #[trigger] frame_commands(state, camera)[k],
                state,
            ),
{
    let frame = frame_commands(state, camera);
    assert forall|k: int| 0 <= k < frame.len() implies is_live(#[trigger] frame[k], state) by {
        lemma_frame_position(state, camera, k);
        let start = scene_start(state);
        if k >= start {
            let i = (k - start) / 7;
            assert(is_resident(state.primitives[i], i, state.textures.len()));
        }
    }
}

/// Within a frame, each draw call comes right after the binding of the
/// buffers and the four textures of the primitive it draws, and reads as
/// many indices as that primitive has. Primitives are drawn in submission
/// order.
pub proof fn law_bind_before_draw(state: RendererView, camera: CameraMatrices, i: int)
    requires
        0 <= i < state.primitives.len(),
    ensures
        ({
            let frame = frame_commands(state, camera);
            let at = scene_start(state) + 7 * i;
            let p = state.primitives[i];
            &&& at + 7 <= frame.len()
            &&& frame[at] == Command::BindGeometry { geometry: p.geometry }
            &&& frame[at + 1] == Command::SetTransform {
                translation: p.translation,
                scaling: p.scaling,
            }
            &&& frame[at + 2] == Command::BindTexture {
                sampler: crate::shader::UniformName::Albedo,
                texture: p.material.albedo,
                unit: 0,
            }
            &&& frame[at + 3] == Command::BindTexture {
                sampler: crate::shader::UniformName::Metaghness,
                texture: p.material.metaghness,
                unit: 1,
            }
            &&& frame[at + 4] == Command::BindTexture {
                sampler: crate::shader::UniformName::Normal,
                texture: p.material.normal,
                unit: 2,
            }
            &&& frame[at + 5] == Command::BindTexture {
                sampler: crate::shader::UniformName::Occlusion,
                texture: p.material.occlusion,
                unit: 3,
            }
            &&& frame[at + 6] == Command::DrawTriangles { index_count: p.index_count }
        }),
{
    lemma_frame_layout(state, camera);
    let frame = frame_commands(state, camera);
    let at = scene_start(state) + 7 * i;
    assert(frame[at + 0] == draw_commands(state.primitives[i])[0]);
    assert(frame[at + 1] == draw_commands(state.primitives[i])[1]);
    assert(frame[at + 2] == draw_commands(state.primitives[i])[2]);
    assert(frame[at + 3] == draw_commands(state.primitives[i])[3]);
    assert(frame[at + 4] == draw_commands(state.primitives[i])[4]);
    assert(frame[at + 5] == draw_commands(state.primitives[i])[5]);
    assert(frame[at + 6] == draw_commands(state.primitives[i])[6]);
}

/// Everything that a frame sets for the program as a whole (camera,
/// rendering mode, volume, lights) is set before the first draw call: no
/// draw call stands before the first primitive's commands.
pub proof fn law_uniforms_before_draws(state: RendererView, camera: CameraMatrices, k: int)
    requires
        0 <= k < frame_commands(state, camera).len(),
    ensures
        ({
            let command = frame_commands(state, camera)[k];
            &&& command is DrawTriangles ==> k >= scene_start(state) + 6
            &&& (command is UseProgram || command is SetMat4 || command is SetRenderingMode
                || command is SetVoxelization || command is SetLight) ==> k < scene_start(state)
        }),
{
    lemma_frame_position(state, camera, k);
}

/// A submission whose uploads failed leaves no trace: once it is settled
/// with the failure, the renderer is what it was before the mesh was
/// submitted. There is no state in which a mesh is mirrored in part.
pub proof fn law_failed_submission_leaves_no_trace(
    before: RendererView,
    after: RendererView,
    primitives: Seq<Primitive>,
    mesh: GpuMesh,
    uploads: Seq<TextureUpload>,
    report: UploadReport,
)
    requires
        before.wf(),
        submitted(before, after, primitives, mesh),
        uploads_cover(uploads, before.textures.len(), after.textures),
        report.error() is Some,
    ensures
        after_settling(after, mesh, uploads.len(), report) == before,
{
    let n = before.primitives.len() as int;
    lemma_acquire_materials_grows(before.textures, primitives);
    assert forall|i: int| 0 <= i < mesh.first implies textures_below(
        #[trigger] after.primitives[i],
        after.textures.len() - uploads.len(),
    ) by {
        assert(after.primitives.subrange(0, n)[i] == before.primitives[i]);
        assert(is_resident(before.primitives[i], i, before.textures.len()));
    }
    assert(is_latest(after, mesh, uploads.len()));
    let back = withdrawn(after, mesh, uploads.len());
    assert(back.meshes =~= before.meshes);
    assert(back.primitives =~= before.primitives);
    assert(back.textures =~= before.textures);
}

/// Writing to the transform of primitives keeps a consistent state
/// consistent, as long as buffers, textures and index counts stay.
pub proof fn law_transforms_keep_wf(state: RendererView, primitives: Seq<GpuPrimitiveView>)
    requires
        state.wf(),
        primitives.len() == state.primitives.len(),
        forall|i: int|
            0 <= i < primitives.len() ==> (#[trigger] primitives[i]).geometry
                == state.primitives[i].geometry && primitives[i].material
                == state.primitives[i].material,
    ensures
        (RendererView { primitives, ..state }).wf(),
{
    let after = RendererView { primitives, ..state };
    assert forall|i: int| 0 <= i < after.primitives.len() implies is_resident(
        #[trigger] after.primitives[i],
        i,
        after.textures.len(),
    ) by {
        assert(is_resident(state.primitives[i], i, state.textures.len()));
    }
}

/// Any value may be written to the volume, the lights, the modes and the
/// viewport of a consistent state; it stays consistent.
pub proof fn law_parameters_keep_wf(
    state: RendererView,
    volume: VoxelVolume,
    rendering_mode: RenderingMode,
    voxelization_mode: VoxelizationMode,
    viewport: (usize, usize),
    light: int,
    direction: Vec3,
    color: Vec3,
)
    requires
        state.wf(),
        0 <= light < state.lights.len(),
    ensures
        (RendererView {
            volume,
            rendering_mode,
            voxelization_mode,
            viewport,
            lights: state.lights.update(light, crate::light::Light { direction, color }),
            ..state
        }).wf(),
{
}

} // verus!
