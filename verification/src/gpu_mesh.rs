//! The device-resident mirror of a mesh: per primitive one buffer pair, one
//! set of textures and the transform it is drawn with.

use crate::command::GeometryHandle;
use crate::command::GeometryUpload;
use crate::command::TextureHandle;
use crate::command::TextureUpload;
use crate::names::is_first_occurrence;
use crate::numeric::Vec3;
use crate::scene::Material;
use crate::scene::Mesh;
use crate::scene::Primitive;
use crate::scene::Vertex;
use crate::texture::acquired;
use crate::texture::law_handles_are_stable;
use crate::texture::TextureCache;
use vstd::prelude::*;

verus! {

/// The number of words one vertex takes in a vertex buffer.
pub const WORDS_PER_VERTEX: usize = 12;

/// Where one attribute of a vertex lies within the words of that vertex.
#[derive(Clone, Copy, Debug, PartialEq, Eq)]
pub struct VertexAttribute {
    /// The attribute location in the shading program.
    pub location: usize,
    /// The number of components.
    pub components: usize,
    /// The number of words before the first component.
    pub offset: usize,
}

/// The attribute layout of a vertex buffer: position, normal, texture
/// coordinate and tangent, at locations zero to three, packed without gaps.
pub open spec fn vertex_layout_spec() -> Seq<VertexAttribute> {
    seq![
        VertexAttribute { location: 0, components: 3, offset: 0 },
        VertexAttribute { location: 1, components: 3, offset: 3 },
        VertexAttribute { location: 2, components: 2, offset: 6 },
        VertexAttribute { location: 3, components: 4, offset: 8 },
    ]
}

/// The attribute layout of a vertex buffer.
pub fn vertex_layout() -> (layout: [VertexAttribute; 4])
    ensures
        layout@ == vertex_layout_spec(),
{
    let layout = [
        VertexAttribute { location: 0, components: 3, offset: 0 },
        VertexAttribute { location: 1, components: 3, offset: 3 },
        VertexAttribute { location: 2, components: 2, offset: 6 },
        VertexAttribute { location: 3, components: 4, offset: 8 },
    ];
    assert(layout@ =~= vertex_layout_spec());
    layout
}

/// The words of one vertex, in buffer order.
pub open spec fn vertex_words(v: Vertex) -> Seq<u32> {
    seq![
        v.position.x,
        v.position.y,
        v.position.z,
        v.normal.x,
        v.normal.y,
        v.normal.z,
        v.uv.x,
        v.uv.y,
        v.tangent.x,
        v.tangent.y,
        v.tangent.z,
        v.tangent.w,
    ]
}

/// The contents of the vertex buffer for a sequence of vertices: the words
/// of each vertex, one vertex after the other.
pub open spec fn interleaved(vertices: Seq<Vertex>) -> Seq<u32>
    decreases vertices.len(),
{
    if vertices.len() == 0 {
        Seq::empty()
    } else {
        interleaved(vertices.drop_last()) + vertex_words(vertices.last())
    }
}

/// One component of one attribute of a vertex: `location` zero is the
/// position, one the normal, two the texture coordinate, three the tangent.
pub open spec fn attribute_component(v: Vertex, location: int, component: int) -> u32 {
    if location == 0 {
        if component == 0 {
            v.position.x
        } else if component == 1 {
            v.position.y
        } else {
            v.position.z
        }
    } else if location == 1 {
        if component == 0 {
            v.normal.x
        } else if component == 1 {
            v.normal.y
        } else {
            v.normal.z
        }
    } else if location == 2 {
        if component == 0 {
            v.uv.x
        } else {
            v.uv.y
        }
    } else {
        if component == 0 {
            v.tangent.x
        } else if component == 1 {
            v.tangent.y
        } else if component == 2 {
            v.tangent.z
        } else {
            v.tangent.w
        }
    }
}

/// A vertex buffer follows the attribute layout: it has twelve words per
/// vertex, and component `c` of attribute `a` of vertex `i` stands at word
/// `12 * i + offset(a) + c`.
pub proof fn law_vertex_buffer_follows_layout(vertices: Seq<Vertex>, i: int, a: int, c: int)
    requires
        0 <= i < vertices.len(),
        0 <= a < 4,
        0 <= c < vertex_layout_spec()[a].components,
    ensures
        interleaved(vertices).len() == 12 * vertices.len(),
        vertex_layout_spec()[a].location == a,
        vertex_layout_spec()[a].offset + c < 12,
        interleaved(vertices)[12 * i + vertex_layout_spec()[a].offset + c] == attribute_component(
            vertices[i],
            a,
            c,
        ),
{
    lemma_interleaved_index(vertices, i, vertex_layout_spec()[a].offset + c);
}

/// A vertex buffer has twelve words per vertex, and word `k` of vertex `i`
/// stands at position `12 * i + k`.
pub proof fn lemma_interleaved_index(vertices: Seq<Vertex>, i: int, k: int)
    requires
        0 <= i < vertices.len(),
        0 <= k < 12,
    ensures
        interleaved(vertices).len() == 12 * vertices.len(),
        interleaved(vertices)[12 * i + k] == vertex_words(vertices[i])[k],
    decreases vertices.len(),
{
    lemma_interleaved_len(vertices.drop_last());
    if i < vertices.len() - 1 {
        lemma_interleaved_index(vertices.drop_last(), i, k);
    }
}

/// A vertex buffer has twelve words per vertex.
pub proof fn lemma_interleaved_len(vertices: Seq<Vertex>)
    ensures
        interleaved(vertices).len() == 12 * vertices.len(),
    decreases vertices.len(),
{
    if vertices.len() > 0 {
        lemma_interleaved_len(vertices.drop_last());
    }
}

/// Lays vertices out for upload.
pub fn interleave(vertices: &Vec<Vertex>) -> (words: Vec<u32>)
    ensures
        words@ == interleaved(vertices@),
{
    let mut words: Vec<u32> = Vec::new();
    let mut i: usize = 0;
    while i < vertices.len()
        invariant
            i <= vertices.len(),
            words@ == interleaved(vertices@.take(i as int)),
        decreases vertices.len() - i,
    {
        let v = vertices[i];
        let ghost before = words@;
        words.push(v.position.x);
        words.push(v.position.y);
        words.push(v.position.z);
        words.push(v.normal.x);
        words.push(v.normal.y);
        words.push(v.normal.z);
        words.push(v.uv.x);
        words.push(v.uv.y);
        words.push(v.tangent.x);
        words.push(v.tangent.y);
        words.push(v.tangent.z);
        words.push(v.tangent.w);
        proof {
            let next = vertices@.take(i + 1);
            assert(next.drop_last() =~= vertices@.take(i as int));
            assert(next.last() == v);
            assert(words@ =~= before + vertex_words(v));
        }
        i += 1;
    }
    assert(vertices@.take(vertices.len() as int) =~= vertices@);
    words
}

/// The textures of one primitive on the device.
#[derive(Clone, Copy, Debug, PartialEq, Eq)]
pub struct GpuMaterial {
    pub albedo: TextureHandle,
    pub metaghness: TextureHandle,
    pub normal: TextureHandle,
    pub occlusion: TextureHandle,
}

/// What a [`GpuPrimitive`] holds.
pub ghost struct GpuPrimitiveView {
    pub geometry: GeometryHandle,
    pub material: GpuMaterial,
    pub index_count: usize,
    pub translation: Vec3,
    pub scaling: Vec3,
}

/// One primitive on the device. Its buffers and textures are fixed when it
/// is created; its transform may be changed at any time.
#[derive(Clone, Copy, Debug, PartialEq, Eq)]
pub struct GpuPrimitive {
    geometry: GeometryHandle,
    material: GpuMaterial,
    index_count: usize,
    translation: Vec3,
    scaling: Vec3,
}

impl View for GpuPrimitive {
    type V = GpuPrimitiveView;

    closed spec fn view(&self) -> GpuPrimitiveView {
        GpuPrimitiveView {
            geometry: self.geometry,
            material: self.material,
            index_count: self.index_count,
            translation: self.translation,
            scaling: self.scaling,
        }
    }
}

impl GpuPrimitive {
    /// The buffer pair that holds the geometry.
    pub fn geometry(&self) -> (r: GeometryHandle)
        ensures
            r == self@.geometry,
    {
        self.geometry
    }

    /// The textures of the surface.
    pub fn material(&self) -> (r: GpuMaterial)
        ensures
            r == self@.material,
    {
        self.material
    }

    /// The number of indices a draw call reads.
    pub fn index_count(&self) -> (r: usize)
        ensures
            r == self@.index_count,
    {
        self.index_count
    }

    pub fn translation(&self) -> (r: Vec3)
        ensures
            r == self@.translation,
    {
        self.translation
    }

    pub fn scaling(&self) -> (r: Vec3)
        ensures
            r == self@.scaling,
    {
        self.scaling
    }

    /// The translation, for writing. Nothing else changes.
    pub fn translation_mut(&mut self) -> (r: &mut Vec3)
        ensures
            *r == old(self)@.translation,
            final(self)@ == (GpuPrimitiveView { translation: *final(r), ..old(self)@ }),
    {
        &mut self.translation
    }

    /// The scaling, for writing. Nothing else changes.
    pub fn scaling_mut(&mut self) -> (r: &mut Vec3)
        ensures
            *r == old(self)@.scaling,
            final(self)@ == (GpuPrimitiveView { scaling: *final(r), ..old(self)@ }),
    {
        &mut self.scaling
    }
}

/// The views of a sequence of device primitives.
pub open spec fn views_of(primitives: Seq<GpuPrimitive>) -> Seq<GpuPrimitiveView> {
    Seq::new(primitives.len(), |i: int| primitives[i]@)
}

/// The device mirror of one mesh: `count` consecutive primitives of the
/// renderer, the first of which has geometry id `first`.
#[derive(Clone, Copy, Debug, PartialEq, Eq)]
pub struct GpuMesh {
    pub first: usize,
    pub count: usize,
}

/// The sources a cache knows after the four textures of a material have
/// been acquired, in the order albedo, metaghness, normal, occlusion.
pub open spec fn acquire_material(sources: Seq<Seq<char>>, material: Material) -> Seq<Seq<char>> {
    acquired(
        acquired(
            acquired(acquired(sources, material.albedo@), material.metaghness@),
            material.normal@,
        ),
        material.occlusion@,
    )
}

/// The sources a cache knows after the materials of a sequence of
/// primitives have been acquired, one primitive after the other.
pub open spec fn acquire_materials(sources: Seq<Seq<char>>, primitives: Seq<Primitive>) -> Seq<
    Seq<char>,
>
    decreases primitives.len(),
{
    if primitives.len() == 0 {
        sources
    } else {
        acquire_material(
            acquire_materials(sources, primitives.drop_last()),
            primitives.last().material,
        )
    }
}

/// Whether the handles of a device material name, in a cache that knows
/// `sources`, the textures of the four sources of `material`.
pub open spec fn resolves(gpu: GpuMaterial, material: Material, sources: Seq<Seq<char>>) -> bool {
    &&& is_first_occurrence(sources, material.albedo@, gpu.albedo.id as int)
    &&& is_first_occurrence(sources, material.metaghness@, gpu.metaghness.id as int)
    &&& is_first_occurrence(sources, material.normal@, gpu.normal.id as int)
    &&& is_first_occurrence(sources, material.occlusion@, gpu.occlusion.id as int)
}

/// Whether a device primitive is the mirror of `primitive` with geometry id
/// `id`, in a cache that knows `sources`.
pub open spec fn mirrors(
    gpu: GpuPrimitiveView,
    primitive: Primitive,
    id: int,
    sources: Seq<Seq<char>>,
) -> bool {
    &&& gpu.geometry.id == id
    &&& gpu.index_count == primitive.indices@.len()
    &&& gpu.translation == primitive.translation
    &&& gpu.scaling == primitive.scaling
    &&& resolves(gpu.material, primitive.material, sources)
}

/// Whether `uploads` creates exactly the textures that a cache gained when
/// it grew from `known` textures to the sources `now`: one upload per new
/// source, in handle order.
pub open spec fn uploads_cover(uploads: Seq<TextureUpload>, known: nat, now: Seq<Seq<char>>) -> bool {
    &&& known + uploads.len() == now.len()
    &&& forall|k: int|
        0 <= k < uploads.len() ==> (#[trigger] uploads[k]).handle.id == known + k
            && uploads[k].source@ == now[known + k]
}

/// Whether `uploads` creates the buffer pairs of `primitives`, one per
/// primitive and in their order, with geometry ids from `first` on.
pub open spec fn uploads_geometry(
    uploads: Seq<GeometryUpload>,
    primitives: Seq<Primitive>,
    first: int,
) -> bool {
    &&& uploads.len() == primitives.len()
    &&& forall|i: int|
        0 <= i < uploads.len() ==> (#[trigger] uploads[i]).handle.id == first + i
            && uploads[i].vertices@ == interleaved(primitives[i].vertices@)
            && uploads[i].indices@ == primitives[i].indices@
}

/// The texture uploads of a submission are all needed and none is asked
/// for twice: in a cache that holds no source twice, every upload is for a
/// source that the cache did not know before, and no two uploads are for
/// the same source.
pub proof fn law_uploads_are_new_and_distinct(
    uploads: Seq<TextureUpload>,
    known: Seq<Seq<char>>,
    now: Seq<Seq<char>>,
    j: int,
    k: int,
)
    requires
        now.no_duplicates(),
        known.len() <= now.len(),
        now.subrange(0, known.len() as int) == known,
        uploads_cover(uploads, known.len(), now),
        0 <= j < uploads.len(),
        0 <= k < uploads.len(),
    ensures
        !known.contains(uploads[k].source@),
        j != k ==> uploads[j].source@ != uploads[k].source@,
{
    if known.contains(uploads[k].source@) {
        let i = choose|i: int| 0 <= i < known.len() && known[i] == uploads[k].source@;
        assert(now.subrange(0, known.len() as int)[i] == now[i]);
        assert(now[i] == now[known.len() + k]);
    }
}

/// What a submission asks of the backend, and the device mesh it made.
#[derive(Clone, Debug, PartialEq, Eq)]
pub struct Submission {
    /// The device mirror of the submitted mesh.
    pub mesh: GpuMesh,
    /// The textures to create, in handle order.
    pub textures: Vec<TextureUpload>,
    /// The buffer pairs to create, in primitive order.
    pub geometries: Vec<GeometryUpload>,
}

/// Acquires one texture and records the upload if the source was new.
fn acquire_recorded(
    textures: &mut TextureCache,
    source: &String,
    uploads: &mut Vec<TextureUpload>,
    Ghost(known): Ghost<nat>,
) -> (handle: TextureHandle)
    requires
        uploads_cover(old(uploads)@, known, old(textures)@),
    ensures
        final(textures)@ == acquired(old(textures)@, source@),
        is_first_occurrence(final(textures)@, source@, handle.id as int),
        uploads_cover(final(uploads)@, known, final(textures)@),
        old(textures).wf() ==> final(textures).wf(),
{
    let got = textures.acquire(source.as_str());
    if got.fresh {
        uploads.push(TextureUpload { handle: got.handle, source: source.clone() });
    }
    got.handle
}

/// A material that resolves in a cache still resolves, to the same
/// handles, after more textures have been acquired.
pub proof fn lemma_resolves_is_stable(
    gpu: GpuMaterial,
    material: Material,
    sources: Seq<Seq<char>>,
    other: Seq<char>,
)
    requires
        resolves(gpu, material, sources),
    ensures
        resolves(gpu, material, acquired(sources, other)),
{
    law_handles_are_stable(sources, material.albedo@, gpu.albedo.id as int, other);
    law_handles_are_stable(sources, material.metaghness@, gpu.metaghness.id as int, other);
    law_handles_are_stable(sources, material.normal@, gpu.normal.id as int, other);
    law_handles_are_stable(sources, material.occlusion@, gpu.occlusion.id as int, other);
}

impl GpuMesh {
    /// Mirrors a mesh on the device. The primitives are appended to `arena`
    /// in their order, each with the geometry id of its position there; the
    /// textures of each material are acquired from `textures`. The result
    /// lists what has to be uploaded for the mirror to exist: every texture
    /// that was new to the cache, once, and one buffer pair per primitive.
    pub fn new(mesh: &Mesh, arena: &mut Vec<GpuPrimitive>, textures: &mut TextureCache) -> (sub:
        Submission)
        ensures
            final(textures)@ == acquire_materials(old(textures)@, mesh@.primitives),
            old(textures).wf() ==> final(textures).wf(),
            final(arena)@.len() == old(arena)@.len() + mesh@.primitives.len(),
            final(arena)@.subrange(0, old(arena)@.len() as int) == old(arena)@,
            forall|i: int|
                0 <= i < mesh@.primitives.len() ==> mirrors(
                    (#[trigger] final(arena)@[old(arena)@.len() + i])@,
                    mesh@.primitives[i],
                    old(arena)@.len() + i,
                    final(textures)@,
                ),
            sub.mesh.first == old(arena)@.len(),
            sub.mesh.count == mesh@.primitives.len(),
            uploads_cover(sub.textures@, old(textures)@.len(), final(textures)@),
            uploads_geometry(sub.geometries@, mesh@.primitives, old(arena)@.len() as int),
    {
        let ghost known = old(textures)@;
        let ghost base = old(arena)@;
        let primitives = mesh.primitives();
        let first = arena.len();
        let mut texture_uploads: Vec<TextureUpload> = Vec::new();
        let mut geometry_uploads: Vec<GeometryUpload> = Vec::new();
        let mut i: usize = 0;
        while i < primitives.len()
            invariant
                i <= primitives.len(),
                primitives@ == mesh@.primitives,
                first == base.len(),
                arena@.len() == base.len() + i,
                arena@.subrange(0, base.len() as int) == base,
                textures@ == acquire_materials(known, primitives@.take(i as int)),
                old(textures).wf() ==> textures.wf(),
                known == old(textures)@,
                forall|j: int|
                    0 <= j < i ==> mirrors(
                        (#[trigger] arena@[base.len() + j])@,
                        primitives@[j],
                        base.len() + j,
                        textures@,
                    ),
                uploads_cover(texture_uploads@, known.len(), textures@),
                uploads_geometry(geometry_uploads@, primitives@.take(i as int), base.len() as int),
            decreases primitives.len() - i,
        {
            let primitive = &primitives[i];
            let ghost before = textures@;
            let ghost arena_before = arena@;
            let albedo = acquire_recorded(
                textures,
                &primitive.material.albedo,
                &mut texture_uploads,
                Ghost(known.len()),
            );
            let ghost s1 = textures@;
            let metaghness = acquire_recorded(
                textures,
                &primitive.material.metaghness,
                &mut texture_uploads,
                Ghost(known.len()),
            );
            let ghost s2 = textures@;
            let normal = acquire_recorded(
                textures,
                &primitive.material.normal,
                &mut texture_uploads,
                Ghost(known.len()),
            );
            let ghost s3 = textures@;
            let occlusion = acquire_recorded(
                textures,
                &primitive.material.occlusion,
                &mut texture_uploads,
                Ghost(known.len()),
            );
            let material = GpuMaterial { albedo, metaghness, normal, occlusion };
            let id = arena.len();
            let gpu = GpuPrimitive {
                geometry: GeometryHandle { id },
                material,
                index_count: primitive.indices.len(),
                translation: primitive.translation,
                scaling: primitive.scaling,
            };
            arena.push(gpu);
            let vertices = interleave(&primitive.vertices);
            let indices = copy_indices(&primitive.indices);
            geometry_uploads.push(GeometryUpload { handle: GeometryHandle { id }, vertices, indices });
            proof {
                let m = primitive.material;
                let next = primitives@.take(i + 1);
                assert(next.drop_last() =~= primitives@.take(i as int));
                assert(next.last() == primitives@[i as int]);
                assert(textures@ == acquire_material(before, m));
                // the handles of this primitive survive the later acquisitions
                law_handles_are_stable(s1, m.albedo@, albedo.id as int, m.metaghness@);
                law_handles_are_stable(s2, m.albedo@, albedo.id as int, m.normal@);
                law_handles_are_stable(s3, m.albedo@, albedo.id as int, m.occlusion@);
                law_handles_are_stable(s2, m.metaghness@, metaghness.id as int, m.normal@);
                law_handles_are_stable(s3, m.metaghness@, metaghness.id as int, m.occlusion@);
                law_handles_are_stable(s3, m.normal@, normal.id as int, m.occlusion@);
                assert(mirrors(gpu@, primitives@[i as int], base.len() + i, textures@));
                // and so do those of the primitives before it
                assert forall|j: int| 0 <= j < i + 1 implies mirrors(
                    (#[trigger] arena@[base.len() + j])@,
                    primitives@[j],
                    base.len() + j,
                    textures@,
                ) by {
                    if j < i {
                        let g = arena_before[base.len() + j]@;
                        assert(arena@[base.len() + j] == arena_before[base.len() + j]);
                        let pm = primitives@[j].material;
                        lemma_resolves_is_stable(g.material, pm, before, m.albedo@);
                        lemma_resolves_is_stable(g.material, pm, s1, m.metaghness@);
                        lemma_resolves_is_stable(g.material, pm, s2, m.normal@);
                        lemma_resolves_is_stable(g.material, pm, s3, m.occlusion@);
                    }
                }
                assert(arena@.subrange(0, base.len() as int) =~= arena_before.subrange(
                    0,
                    base.len() as int,
                ));
            }
            i += 1;
        }
        assert(primitives@.take(primitives.len() as int) =~= primitives@);
        Submission {
            mesh: GpuMesh { first, count: primitives.len() },
            textures: texture_uploads,
            geometries: geometry_uploads,
        }
    }
}

/// Acquiring the materials of primitives only appends to what a cache
/// knows, and keeps it free of repetitions.
pub proof fn lemma_acquire_materials_grows(sources: Seq<Seq<char>>, primitives: Seq<Primitive>)
    ensures
        sources.len() <= acquire_materials(sources, primitives).len(),
        acquire_materials(sources, primitives).subrange(0, sources.len() as int) == sources,
        sources.no_duplicates() ==> acquire_materials(sources, primitives).no_duplicates(),
    decreases primitives.len(),
{
    if primitives.len() > 0 {
        lemma_acquire_materials_grows(sources, primitives.drop_last());
        let s0 = acquire_materials(sources, primitives.drop_last());
        let m = primitives.last().material;
        let s1 = acquired(s0, m.albedo@);
        let s2 = acquired(s1, m.metaghness@);
        let s3 = acquired(s2, m.normal@);
        let s4 = acquired(s3, m.occlusion@);
        assert(s4.subrange(0, sources.len() as int) =~= s0.subrange(0, sources.len() as int));
    } else {
        assert(sources.subrange(0, sources.len() as int) =~= sources);
    }
}

/// Copies an index list.
fn copy_indices(indices: &Vec<u32>) -> (copy: Vec<u32>)
    ensures
        copy@ == indices@,
{
    let mut copy: Vec<u32> = Vec::new();
    let mut k: usize = 0;
    while k < indices.len()
        invariant
            k <= indices.len(),
            copy@ == indices@.take(k as int),
        decreases indices.len() - k,
    {
        copy.push(indices[k]);
        assert(copy@ =~= indices@.take(k + 1));
        k += 1;
    }
    assert(indices@.take(indices.len() as int) =~= indices@);
    copy
}

} // verus!
