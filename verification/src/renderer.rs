//! The renderer: owner of every device mesh, of the texture cache, of the
//! voxel volume and of the lights, and author of each frame.

use crate::camera::CameraMatrices;
use crate::command::Command;
use crate::command::UploadReport;
use crate::error::RenderError;
use crate::frame::CLEAR_SHADE;
use crate::frame::draw_commands;
use crate::frame::frame_commands;
use crate::frame::light_commands;
use crate::frame::prologue_commands;
use crate::frame::scene_commands;
use crate::frame::setup_commands;
use crate::frame::voxel_commands;
use crate::gpu_mesh::GpuMesh;
use crate::gpu_mesh::GpuPrimitive;
use crate::gpu_mesh::mirrors;
use crate::gpu_mesh::Submission;
use crate::gpu_mesh::uploads_cover;
use crate::gpu_mesh::uploads_geometry;
use crate::gpu_mesh::views_of;
use crate::light::Light;
use crate::mode::RenderingMode;
use crate::mode::VoxelizationMode;
use crate::numeric::ONE;
use crate::scene::Mesh;
use crate::shader::declares_all;
use crate::shader::ShaderProgram;
use crate::shader::UniformName;
use crate::state::after_settling;
use crate::state::initial_state;
use crate::state::lemma_submission_keeps_wf;
use crate::state::lemma_withdrawn_keeps_wf;
use crate::state::RendererView;
use crate::state::submitted;
use crate::state::textures_below;
use crate::state::withdrawn;
use crate::texture::TextureCache;
use crate::volume::VoxelVolume;
use vstd::prelude::*;

verus! {

/// Owns the device mirror of the scene and lays out frames.
#[derive(Debug)]
pub struct Renderer {
    program: ShaderProgram,
    textures: TextureCache,
    primitives: Vec<GpuPrimitive>,
    meshes: Vec<GpuMesh>,
    volume: VoxelVolume,
    lights: Vec<Light>,
    rendering_mode: RenderingMode,
    voxelization_mode: VoxelizationMode,
    viewport: (usize, usize),
}

impl View for Renderer {
    type V = RendererView;

    closed spec fn view(&self) -> RendererView {
        RendererView {
            uniforms: self.program@,
            textures: self.textures@,
            primitives: views_of(self.primitives@),
            meshes: self.meshes@,
            volume: self.volume,
            lights: self.lights@,
            rendering_mode: self.rendering_mode,
            voxelization_mode: self.voxelization_mode,
            viewport: self.viewport,
        }
    }
}

impl Renderer {
    /// A renderer without meshes for a linked program. It starts with one
    /// light, the sun; with the unit volume at the given resolution; in the
    /// rendering mode `Scene` and the voxelization mode `FragmentOnly`.
    ///
    /// Fails with [`RenderError::ShaderUniform`] exactly when the program
    /// lacks a uniform that a frame or the setup sets.
    pub fn new(program: ShaderProgram, viewport_size: (usize, usize), resolution: i32) -> (r:
        Result<Renderer, RenderError>)
        ensures
            match r {
                Ok(renderer) => {
                    &&& declares_all(program@)
                    &&& renderer@ == initial_state(program@, viewport_size, resolution)
                    &&& renderer@.wf()
                },
                Err(e) => e == RenderError::ShaderUniform && !declares_all(program@),
            },
    {
        match program.missing_uniform() {
            Some(_) => Err(RenderError::ShaderUniform),
            None => {
                let mut lights: Vec<Light> = Vec::new();
                lights.push(Light::sun());
                let renderer = Renderer {
                    program,
                    textures: TextureCache::new(),
                    primitives: Vec::new(),
                    meshes: Vec::new(),
                    volume: VoxelVolume::new(resolution),
                    lights,
                    rendering_mode: RenderingMode::Scene,
                    voxelization_mode: VoxelizationMode::FragmentOnly,
                    viewport: viewport_size,
                };
                proof {
                    let target = initial_state(program@, viewport_size, resolution);
                    assert(renderer@.primitives =~= target.primitives);
                    assert(renderer@.lights =~= target.lights);
                    assert(renderer@.meshes =~= target.meshes);
                }
                Ok(renderer)
            },
        }
    }

    /// The commands that prepare the device once, before the first frame.
    pub fn setup(&self) -> (commands: Vec<Command>)
        ensures
            commands@ == setup_commands(self@.viewport),
    {
        let mut commands: Vec<Command> = Vec::new();
        commands.push(Command::SetDefaults);
        commands.push(Command::FrontFace { clockwise: true });
        commands.push(Command::Viewport { width: self.viewport.0, height: self.viewport.1 });
        commands.push(Command::UseProgram);
        commands.push(Command::SetFloat { uniform: UniformName::Time, value: ONE });
        assert(commands@ =~= setup_commands(self@.viewport));
        commands
    }

    /// Mirrors a mesh on the device and takes ownership of the mirror. This
    /// is the only way in which the renderer gains primitives, and none is
    /// ever removed. The primitives go behind those already there, in the
    /// order of the mesh, one device primitive per primitive of the mesh.
    /// The result lists what the backend has to upload now.
    pub fn submit_mesh(&mut self, mesh: &Mesh) -> (sub: Submission)
        ensures
            submitted(old(self)@, final(self)@, mesh@.primitives, sub.mesh),
            uploads_cover(sub.textures@, old(self)@.textures.len(), final(self)@.textures),
            uploads_geometry(
                sub.geometries@,
                mesh@.primitives,
                old(self)@.primitives.len() as int,
            ),
            old(self)@.wf() ==> final(self)@.wf(),
    {
        let ghost before = self.primitives@;
        let sub = GpuMesh::new(mesh, &mut self.primitives, &mut self.textures);
        self.meshes.push(sub.mesh);
        proof {
            let n = before.len() as int;
            assert(final(self)@.primitives.subrange(0, n) =~= old(self)@.primitives) by {
                assert(self.primitives@.subrange(0, n) == before);
                assert forall|j: int| 0 <= j < n implies final(self)@.primitives.subrange(0, n)[j]
                    == old(self)@.primitives[j] by {
                    assert(self.primitives@.subrange(0, n)[j] == before[j]);
                }
            }
            assert forall|i: int| 0 <= i < mesh@.primitives.len() implies mirrors(
                #[trigger] final(self)@.primitives[n + i],
                mesh@.primitives[i],
                n + i,
                final(self)@.textures,
            ) by {
                assert(final(self)@.primitives[n + i] == self.primitives@[n + i]@);
            }
            assert(final(self)@.meshes =~= old(self)@.meshes.push(sub.mesh));
            assert(submitted(old(self)@, final(self)@, mesh@.primitives, sub.mesh));
            if old(self)@.wf() {
                lemma_submission_keeps_wf(old(self)@, final(self)@, mesh@.primitives, sub.mesh);
            }
        }
        sub
    }

    /// Closes a submission once the backend has reported on its uploads.
    /// After a success the device mesh stands. After a failure the error
    /// of the report is returned and the submission is taken back whole:
    /// its mesh, its primitives and the textures it added are forgotten,
    /// provided that it is the most recent submission.
    pub fn settle(&mut self, submission: &Submission, report: UploadReport) -> (r: Result<
        GpuMesh,
        RenderError,
    >)
        ensures
            r == (match report.error() {
                None => Ok(submission.mesh),
                Some(e) => Err(e),
            }),
            final(self)@ == after_settling(
                old(self)@,
                submission.mesh,
                submission.textures@.len(),
                report,
            ),
            old(self)@.wf() ==> final(self)@.wf(),
    {
        match report.to_error() {
            None => Ok(submission.mesh),
            Some(e) => {
                let mesh = submission.mesh;
                let added = submission.textures.len();
                let n = self.meshes.len();
                let total = self.primitives.len();
                if n > 0 && self.meshes[n - 1].first == mesh.first && self.meshes[n - 1].count
                    == mesh.count && mesh.first <= total && total - mesh.first == mesh.count
                    && added <= self.textures.len() && self.uses_textures_below(
                    mesh.first,
                    self.textures.len() - added,
                ) {
                    let ghost before = self@;
                    self.meshes.pop();
                    self.primitives.truncate(mesh.first);
                    let kept = self.textures.len() - added;
                    self.textures.forget_from(kept);
                    proof {
                        let target = withdrawn(before, mesh, added as nat);
                        assert(self@.meshes =~= target.meshes);
                        assert(self@.primitives =~= target.primitives);
                        assert(self@.textures =~= target.textures);
                        if before.wf() {
                            lemma_withdrawn_keeps_wf(before, mesh, added as nat);
                        }
                    }
                }
                Err(e)
            },
        }
    }

    /// Whether the first `count` primitives use only textures with an id
    /// below `textures`.
    fn uses_textures_below(&self, count: usize, textures: usize) -> (r: bool)
        requires
            count <= self@.primitives.len(),
        ensures
            r == forall|i: int|
                0 <= i < count ==> textures_below(#[trigger] self@.primitives[i], textures as int),
    {
        let mut i: usize = 0;
        while i < count
            invariant
                i <= count <= self.primitives.len(),
                forall|j: int|
                    0 <= j < i ==> textures_below(#[trigger] self@.primitives[j], textures as int),
            decreases count - i,
        {
            let m = self.primitives[i].material();
            if !(m.albedo.id < textures && m.metaghness.id < textures && m.normal.id < textures
                && m.occlusion.id < textures) {
                assert(!textures_below(self@.primitives[i as int], textures as int));
                return false;
            }
            i += 1;
        }
        true
    }

    /// Lays out one frame: set the viewport, clear, make the program
    /// current, upload the camera, select the rendering mode, run the
    /// voxelization pass unless the volume is degenerate, describe the
    /// lights, then draw every primitive in submission order. The renderer
    /// does not change, so the same state and camera give the same frame.
    pub fn render(&self, camera: &CameraMatrices) -> (commands: Vec<Command>)
        ensures
            commands@ == frame_commands(self@, *camera),
    {
        let mut commands: Vec<Command> = Vec::new();
        commands.push(Command::Viewport { width: self.viewport.0, height: self.viewport.1 });
        commands.push(
            Command::ClearColor {
                red: CLEAR_SHADE,
                green: CLEAR_SHADE,
                blue: CLEAR_SHADE,
                alpha: ONE,
            },
        );
        commands.push(Command::Clear { color: true, depth: true, stencil: true });
        commands.push(Command::UseProgram);
        commands.push(Command::SetMat4 { uniform: UniformName::Proj, matrix: camera.projection });
        commands.push(Command::SetMat4 { uniform: UniformName::View, matrix: camera.view });
        commands.push(Command::SetRenderingMode { rendering: self.rendering_mode });
        assert(commands@ =~= prologue_commands(self@.viewport, *camera, self@.rendering_mode));
        if self.volume.usable() {
            commands.push(
                Command::SetVoxelization {
                    voxelization: self.voxelization_mode,
                    translation: self.volume.translation,
                    scaling: self.volume.scaling,
                    view_translation: self.volume.view_translation,
                    view_scaling: self.volume.view_scaling,
                    resolution: self.volume.resolution as u32,
                },
            );
        }
        let ghost lit = prologue_commands(self@.viewport, *camera, self@.rendering_mode)
            + voxel_commands(self@.volume, self@.voxelization_mode);
        assert(commands@ =~= lit);
        let mut i: usize = 0;
        while i < self.lights.len()
            invariant
                i <= self.lights.len(),
                commands@ == lit + light_commands(self.lights@).take(i as int),
            decreases self.lights.len() - i,
        {
            commands.push(Command::SetLight { index: i, light: self.lights[i] });
            assert(commands@ =~= lit + light_commands(self.lights@).take(i + 1));
            i += 1;
        }
        assert(light_commands(self.lights@).take(self.lights.len() as int) =~= light_commands(
            self.lights@,
        ));
        let ghost head = lit + light_commands(self@.lights);
        let ghost views = self@.primitives;
        let mut k: usize = 0;
        while k < self.primitives.len()
            invariant
                k <= self.primitives.len(),
                views == views_of(self.primitives@),
                commands@ == head + scene_commands(views.take(k as int)),
            decreases self.primitives.len() - k,
        {
            let p = &self.primitives[k];
            let material = p.material();
            let ghost drawn = commands@;
            commands.push(Command::BindGeometry { geometry: p.geometry() });
            commands.push(
                Command::SetTransform { translation: p.translation(), scaling: p.scaling() },
            );
            commands.push(
                Command::BindTexture {
                    sampler: UniformName::Albedo,
                    texture: material.albedo,
                    unit: 0,
                },
            );
            commands.push(
                Command::BindTexture {
                    sampler: UniformName::Metaghness,
                    texture: material.metaghness,
                    unit: 1,
                },
            );
            commands.push(
                Command::BindTexture {
                    sampler: UniformName::Normal,
                    texture: material.normal,
                    unit: 2,
                },
            );
            commands.push(
                Command::BindTexture {
                    sampler: UniformName::Occlusion,
                    texture: material.occlusion,
                    unit: 3,
                },
            );
            commands.push(Command::DrawTriangles { index_count: p.index_count() });
            proof {
                let next = views.take(k + 1);
                assert(next.drop_last() =~= views.take(k as int));
                assert(next.last() == p@);
                assert(commands@ =~= drawn + draw_commands(p@));
                assert(commands@ =~= head + scene_commands(next));
            }
            k += 1;
        }
        assert(views.take(self.primitives.len() as int) =~= views);
        commands
    }

    /// Sets the size of the viewport. Every later frame uses it.
    pub fn set_viewport_size(&mut self, size: (usize, usize))
        ensures
            final(self)@ == (RendererView { viewport: size, ..old(self)@ }),
    {
        self.viewport = size;
    }

    /// The size of the viewport.
    pub fn viewport_size(&self) -> (size: (usize, usize))
        ensures
            size == self@.viewport,
    {
        self.viewport
    }

    /// The voxel volume, for reading.
    pub fn volume(&self) -> (r: &VoxelVolume)
        ensures
            *r == self@.volume,
    {
        &self.volume
    }

    /// The voxel volume, for writing. Any value may be written; a frame
    /// leaves the voxelization pass out while the volume is degenerate.
    pub fn volume_mut(&mut self) -> (r: &mut VoxelVolume)
        ensures
            *r == old(self)@.volume,
            final(self)@ == (RendererView { volume: *final(r), ..old(self)@ }),
    {
        &mut self.volume
    }

    /// Every device primitive, in submission order, for writing. The
    /// number of primitives cannot change this way, and the methods of a
    /// primitive let only its transform be written.
    pub fn primitives_mut(&mut self) -> (r: &mut [GpuPrimitive])
        ensures
            views_of(r@) == old(self)@.primitives,
            final(self)@ == (RendererView { primitives: views_of(final(r)@), ..old(self)@ }),
    {
        self.primitives.as_mut_slice()
    }

    /// Every device primitive, in submission order.
    pub fn primitives(&self) -> (r: &[GpuPrimitive])
        ensures
            views_of(r@) == self@.primitives,
    {
        self.primitives.as_slice()
    }

    /// The number of device primitives.
    pub fn primitive_count(&self) -> (n: usize)
        ensures
            n == self@.primitives.len(),
    {
        self.primitives.len()
    }

    /// Every device mesh, in submission order.
    pub fn meshes(&self) -> (r: &[GpuMesh])
        ensures
            r@ == self@.meshes,
    {
        self.meshes.as_slice()
    }

    /// The light at `index`, for writing; `None` when there is no such
    /// light. The sun has index zero.
    pub fn light(&mut self, index: usize) -> (r: Option<&mut Light>)
        ensures
            match r {
                Some(light) => {
                    &&& index < old(self)@.lights.len()
                    &&& *light == old(self)@.lights[index as int]
                    &&& final(self)@ == (RendererView {
                        lights: old(self)@.lights.update(index as int, *final(light)),
                        ..old(self)@
                    })
                },
                None => index >= old(self)@.lights.len() && final(self)@ == old(self)@,
            },
    {
        if index < self.lights.len() {
            Some(&mut self.lights[index])
        } else {
            None
        }
    }

    /// The number of lights.
    pub fn light_count(&self) -> (n: usize)
        ensures
            n == self@.lights.len(),
    {
        self.lights.len()
    }

    /// The texture cache.
    pub fn textures(&self) -> (r: &TextureCache)
        ensures
            r@ == self@.textures,
    {
        &self.textures
    }

    /// The shading program.
    pub fn program(&self) -> (r: &ShaderProgram)
        ensures
            r@ == self@.uniforms,
    {
        &self.program
    }

    pub fn rendering_mode(&self) -> (mode: RenderingMode)
        ensures
            mode == self@.rendering_mode,
    {
        self.rendering_mode
    }

    pub fn voxelization_mode(&self) -> (mode: VoxelizationMode)
        ensures
            mode == self@.voxelization_mode,
    {
        self.voxelization_mode
    }

    /// The rendering mode, for writing. Nothing else changes with it.
    pub fn rendering_mode_mut(&mut self) -> (r: &mut RenderingMode)
        ensures
            *r == old(self)@.rendering_mode,
            final(self)@ == (RendererView { rendering_mode: *final(r), ..old(self)@ }),
    {
        &mut self.rendering_mode
    }

    /// The voxelization mode, for writing. Nothing else changes with it.
    pub fn voxelization_mode_mut(&mut self) -> (r: &mut VoxelizationMode)
        ensures
            *r == old(self)@.voxelization_mode,
            final(self)@ == (RendererView { voxelization_mode: *final(r), ..old(self)@ }),
    {
        &mut self.voxelization_mode
    }
}

} // verus!
