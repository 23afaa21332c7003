//! The state of a renderer as a mathematical value, what it means for it to
//! be consistent, and how submissions change it.

use crate::command::UploadReport;
use crate::gpu_mesh::acquire_materials;
use crate::gpu_mesh::GpuMesh;
use crate::gpu_mesh::GpuPrimitiveView;
use crate::gpu_mesh::lemma_acquire_materials_grows;
use crate::gpu_mesh::mirrors;
use crate::light::Light;
use crate::mode::RenderingMode;
use crate::mode::VoxelizationMode;
use crate::scene::Primitive;
use crate::shader::declares_all;
use crate::volume::VoxelVolume;
use vstd::prelude::*;

verus! {

/// What a renderer holds.
pub ghost struct RendererView {
    /// The names of the active uniforms of the shading program.
    pub uniforms: Seq<Seq<char>>,
    /// The sources of the texture cache, in handle order.
    pub textures: Seq<Seq<char>>,
    /// Every device primitive, in submission order.
    pub primitives: Seq<GpuPrimitiveView>,
    /// Every device mesh, in submission order.
    pub meshes: Seq<GpuMesh>,
    pub volume: VoxelVolume,
    pub lights: Seq<Light>,
    pub rendering_mode: RenderingMode,
    pub voxelization_mode: VoxelizationMode,
    /// Width and height of the viewport.
    pub viewport: (usize, usize),
}

/// Whether the meshes lie one after the other, the first at position zero,
/// and together take up exactly `total` primitives.
pub open spec fn tiles(meshes: Seq<GpuMesh>, total: int) -> bool
    decreases meshes.len(),
{
    if meshes.len() == 0 {
        total == 0
    } else {
        &&& meshes.last().first + meshes.last().count == total
        &&& tiles(meshes.drop_last(), meshes.last().first as int)
    }
}

/// Whether a device primitive uses only textures with an id below
/// `textures`.
pub open spec fn textures_below(p: GpuPrimitiveView, textures: int) -> bool {
    &&& p.material.albedo.id < textures
    &&& p.material.metaghness.id < textures
    &&& p.material.normal.id < textures
    &&& p.material.occlusion.id < textures
}

/// Whether a device primitive at position `id` has the geometry id of its
/// position and uses only textures that exist among `textures` textures.
pub open spec fn is_resident(p: GpuPrimitiveView, id: int, textures: nat) -> bool {
    &&& p.geometry.id == id
    &&& textures_below(p, textures as int)
}

impl RendererView {
    /// The state is consistent: the program declares every uniform that a
    /// frame sets, the cache holds no source twice, every primitive has the
    /// geometry id of its position and textures of the cache, the meshes
    /// tile the primitives, and there is a light.
    pub open spec fn wf(self) -> bool {
        &&& declares_all(self.uniforms)
        &&& self.textures.no_duplicates()
        &&& forall|i: int|
            0 <= i < self.primitives.len() ==> is_resident(
                #[trigger] self.primitives[i],
                i,
                self.textures.len(),
            )
        &&& tiles(self.meshes, self.primitives.len() as int)
        &&& self.lights.len() >= 1
    }
}

/// The state of a renderer that has just been made.
pub open spec fn initial_state(
    uniforms: Seq<Seq<char>>,
    viewport: (usize, usize),
    resolution: i32,
) -> RendererView {
    RendererView {
        uniforms,
        textures: Seq::empty(),
        primitives: Seq::empty(),
        meshes: Seq::empty(),
        volume: VoxelVolume::unit(resolution),
        lights: seq![Light::sun_spec()],
        rendering_mode: RenderingMode::Scene,
        voxelization_mode: VoxelizationMode::FragmentOnly,
        viewport,
    }
}

/// Whether `after` is `before` with the device mirror `mesh` of
/// `primitives` added: the textures of the materials are acquired, the
/// device primitives stand behind those already there, one per primitive
/// and in order, and the mesh is the last of the meshes. Nothing else
/// differs.
pub open spec fn submitted(
    before: RendererView,
    after: RendererView,
    primitives: Seq<Primitive>,
    mesh: GpuMesh,
) -> bool {
    &&& after == (RendererView {
        textures: acquire_materials(before.textures, primitives),
        primitives: after.primitives,
        meshes: before.meshes.push(mesh),
        ..before
    })
    &&& mesh.first == before.primitives.len()
    &&& mesh.count == primitives.len()
    &&& after.primitives.len() == before.primitives.len() + primitives.len()
    &&& after.primitives.subrange(0, before.primitives.len() as int) == before.primitives
    &&& forall|i: int|
        0 <= i < primitives.len() ==> mirrors(
            #[trigger] after.primitives[before.primitives.len() + i],
            primitives[i],
            before.primitives.len() + i,
            after.textures,
        )
}

/// Whether `mesh`, which added `added` textures, is the most recent
/// submission of a state and can be taken back: it is the last mesh, its
/// primitives are the last primitives, and no primitive before them uses
/// one of the textures it added.
pub open spec fn is_latest(state: RendererView, mesh: GpuMesh, added: nat) -> bool {
    &&& state.meshes.len() > 0
    &&& state.meshes.last() == mesh
    &&& mesh.first + mesh.count == state.primitives.len()
    &&& added <= state.textures.len()
    &&& forall|i: int|
        0 <= i < mesh.first ==> textures_below(
            #[trigger] state.primitives[i],
            state.textures.len() - added,
        )
}

/// A state without its most recent submission.
pub open spec fn withdrawn(state: RendererView, mesh: GpuMesh, added: nat) -> RendererView {
    RendererView {
        meshes: state.meshes.drop_last(),
        primitives: state.primitives.take(mesh.first as int),
        textures: state.textures.take(state.textures.len() - added),
        ..state
    }
}

/// The state after a submission has been settled: unchanged after a
/// success, and after a failure without the submission if it is the most
/// recent one.
pub open spec fn after_settling(
    state: RendererView,
    mesh: GpuMesh,
    added: nat,
    report: UploadReport,
) -> RendererView {
    if report.error() is Some && is_latest(state, mesh, added) {
        withdrawn(state, mesh, added)
    } else {
        state
    }
}

/// Taking the most recent submission back leaves a consistent renderer
/// consistent, provided that no remaining primitive uses a texture that
/// goes with it.
pub proof fn lemma_withdrawn_keeps_wf(state: RendererView, mesh: GpuMesh, added: nat)
    requires
        state.wf(),
        is_latest(state, mesh, added),
    ensures
        withdrawn(state, mesh, added).wf(),
{
    let after = withdrawn(state, mesh, added);
    assert forall|i: int| 0 <= i < after.primitives.len() implies is_resident(
        #[trigger] after.primitives[i],
        i,
        after.textures.len(),
    ) by {
        assert(is_resident(state.primitives[i], i, state.textures.len()));
    }
}

/// A submission leaves a consistent renderer consistent.
pub proof fn lemma_submission_keeps_wf(
    before: RendererView,
    after: RendererView,
    primitives: Seq<Primitive>,
    mesh: GpuMesh,
)
    requires
        before.wf(),
        submitted(before, after, primitives, mesh),
    ensures
        after.wf(),
{
    lemma_acquire_materials_grows(before.textures, primitives);
    let n = before.primitives.len() as int;
    assert forall|i: int| 0 <= i < after.primitives.len() implies is_resident(
        #[trigger] after.primitives[i],
        i,
        after.textures.len(),
    ) by {
        if i < n {
            assert(after.primitives.subrange(0, n)[i] == before.primitives[i]);
            assert(is_resident(before.primitives[i], i, before.textures.len()));
        } else {
            assert(mirrors(
                after.primitives[n + (i - n)],
                primitives[i - n],
                n + (i - n),
                after.textures,
            ));
        }
    }
    assert(after.meshes.drop_last() =~= before.meshes);
}

} // verus!
