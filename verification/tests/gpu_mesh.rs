use voxel_renderer::command::GeometryHandle;
use voxel_renderer::command::TextureHandle;
use voxel_renderer::gpu_mesh::interleave;
use voxel_renderer::gpu_mesh::vertex_layout;
use voxel_renderer::gpu_mesh::GpuMaterial;
use voxel_renderer::gpu_mesh::GpuMesh;
use voxel_renderer::gpu_mesh::GpuPrimitive;
use voxel_renderer::gpu_mesh::VertexAttribute;
use voxel_renderer::gpu_mesh::WORDS_PER_VERTEX;
use voxel_renderer::numeric::Vec2;
use voxel_renderer::numeric::Vec3;
use voxel_renderer::numeric::Vec4;
use voxel_renderer::scene::Material;
use voxel_renderer::scene::Mesh;
use voxel_renderer::scene::Primitive;
use voxel_renderer::scene::Vertex;
use voxel_renderer::texture::TextureCache;

fn v3(x: f32, y: f32, z: f32) -> Vec3 {
    Vec3::new(x.to_bits(), y.to_bits(), z.to_bits())
}

fn numbered_vertex(base: u32) -> Vertex {
    Vertex {
        position: Vec3::new(base, base + 1, base + 2),
        normal: Vec3::new(base + 3, base + 4, base + 5),
        uv: Vec2::new(base + 6, base + 7),
        tangent: Vec4::new(base + 8, base + 9, base + 10, base + 11),
    }
}

fn material(albedo: &str, metaghness: &str, normal: &str, occlusion: &str) -> Material {
    Material {
        albedo: albedo.to_string(),
        metaghness: metaghness.to_string(),
        normal: normal.to_string(),
        occlusion: occlusion.to_string(),
    }
}

fn triangle(material: Material, at: Vec3) -> Primitive {
    Primitive {
        vertices: vec![numbered_vertex(0), numbered_vertex(100), numbered_vertex(200)],
        indices: vec![0, 1, 2],
        translation: at,
        scaling: v3(1.0, 1.0, 1.0),
        material,
    }
}

#[test]
fn layout_is_position_normal_uv_tangent_without_gaps() {
    let layout = vertex_layout();
    assert_eq!(layout[0], VertexAttribute { location: 0, components: 3, offset: 0 });
    assert_eq!(layout[1], VertexAttribute { location: 1, components: 3, offset: 3 });
    assert_eq!(layout[2], VertexAttribute { location: 2, components: 2, offset: 6 });
    assert_eq!(layout[3], VertexAttribute { location: 3, components: 4, offset: 8 });
    let mut next = 0;
    for attribute in layout.iter() {
        assert_eq!(attribute.offset, next);
        next += attribute.components;
    }
    assert_eq!(next, WORDS_PER_VERTEX);
    assert_eq!(WORDS_PER_VERTEX, 12);
}

#[test]
fn interleave_of_nothing_is_empty() {
    assert_eq!(interleave(&Vec::new()), Vec::<u32>::new());
}

#[test]
fn interleave_writes_the_words_of_each_vertex_in_order() {
    let words = interleave(&vec![numbered_vertex(0), numbered_vertex(12), numbered_vertex(24)]);
    let expected: Vec<u32> = (0..36).collect();
    assert_eq!(words, expected);
}

#[test]
fn interleave_places_attributes_at_their_offsets() {
    let vertices = vec![numbered_vertex(1000), numbered_vertex(2000)];
    let words = interleave(&vertices);
    assert_eq!(words.len(), 2 * WORDS_PER_VERTEX);
    let layout = vertex_layout();
    for (i, v) in vertices.iter().enumerate() {
        let at = i * WORDS_PER_VERTEX;
        assert_eq!(words[at + layout[0].offset], v.position.x);
        assert_eq!(words[at + layout[0].offset + 2], v.position.z);
        assert_eq!(words[at + layout[1].offset], v.normal.x);
        assert_eq!(words[at + layout[1].offset + 1], v.normal.y);
        assert_eq!(words[at + layout[2].offset], v.uv.x);
        assert_eq!(words[at + layout[2].offset + 1], v.uv.y);
        assert_eq!(words[at + layout[3].offset], v.tangent.x);
        assert_eq!(words[at + layout[3].offset + 3], v.tangent.w);
    }
}

#[test]
fn mirror_has_one_device_primitive_per_primitive() {
    let mesh = Mesh::new(
        vec![
            triangle(material("a", "b", "c", "d"), v3(1.0, 2.0, 3.0)),
            triangle(material("e", "f", "g", "h"), v3(4.0, 5.0, 6.0)),
            triangle(material("a", "f", "c", "h"), v3(7.0, 8.0, 9.0)),
        ],
        v3(0.0, 0.0, 0.0),
        v3(1.0, 1.0, 1.0),
    )
    .unwrap();
    let mut arena: Vec<GpuPrimitive> = Vec::new();
    let mut textures = TextureCache::new();
    let sub = GpuMesh::new(&mesh, &mut arena, &mut textures);
    assert_eq!(sub.mesh, GpuMesh { first: 0, count: 3 });
    assert_eq!(arena.len(), 3);
    assert_eq!(sub.geometries.len(), 3);
    assert_eq!(textures.len(), 8);
    assert_eq!(sub.textures.len(), 8);
    for (i, p) in arena.iter().enumerate() {
        assert_eq!(p.geometry(), GeometryHandle { id: i });
        assert_eq!(p.index_count(), 3);
        assert_eq!(p.translation(), mesh.primitives()[i].translation);
        assert_eq!(p.scaling(), mesh.primitives()[i].scaling);
    }
    let h = |id: usize| TextureHandle { id };
    assert_eq!(
        arena[0].material(),
        GpuMaterial { albedo: h(0), metaghness: h(1), normal: h(2), occlusion: h(3) }
    );
    assert_eq!(
        arena[1].material(),
        GpuMaterial { albedo: h(4), metaghness: h(5), normal: h(6), occlusion: h(7) }
    );
    assert_eq!(
        arena[2].material(),
        GpuMaterial { albedo: h(0), metaghness: h(5), normal: h(2), occlusion: h(7) }
    );
}

#[test]
fn mirror_uploads_each_new_texture_once_in_handle_order() {
    let mesh = Mesh::new(
        vec![
            triangle(material("x", "x", "y", "x"), v3(0.0, 0.0, 0.0)),
            triangle(material("y", "z", "known", "x"), v3(0.0, 0.0, 0.0)),
        ],
        v3(0.0, 0.0, 0.0),
        v3(1.0, 1.0, 1.0),
    )
    .unwrap();
    let mut arena: Vec<GpuPrimitive> = Vec::new();
    let mut textures = TextureCache::new();
    textures.acquire("known");
    let sub = GpuMesh::new(&mesh, &mut arena, &mut textures);
    let uploaded: Vec<(usize, &str)> =
        sub.textures.iter().map(|u| (u.handle.id, u.source.as_str())).collect();
    assert_eq!(uploaded, vec![(1, "x"), (2, "y"), (3, "z")]);
    assert_eq!(textures.len(), 4);
    let h = |id: usize| TextureHandle { id };
    assert_eq!(
        arena[0].material(),
        GpuMaterial { albedo: h(1), metaghness: h(1), normal: h(2), occlusion: h(1) }
    );
    assert_eq!(
        arena[1].material(),
        GpuMaterial { albedo: h(2), metaghness: h(3), normal: h(0), occlusion: h(1) }
    );
}

#[test]
fn mirror_uploads_geometry_as_laid_out() {
    let mut quad = triangle(material("a", "a", "a", "a"), v3(0.0, 0.0, 0.0));
    quad.vertices.push(numbered_vertex(300));
    quad.indices = vec![0, 1, 2, 2, 3, 0];
    let mesh = Mesh::new(vec![quad.clone()], v3(0.0, 0.0, 0.0), v3(1.0, 1.0, 1.0)).unwrap();
    let mut arena: Vec<GpuPrimitive> = Vec::new();
    let mut textures = TextureCache::new();
    let sub = GpuMesh::new(&mesh, &mut arena, &mut textures);
    assert_eq!(sub.geometries.len(), 1);
    assert_eq!(sub.geometries[0].handle, GeometryHandle { id: 0 });
    assert_eq!(sub.geometries[0].vertices, interleave(&quad.vertices));
    assert_eq!(sub.geometries[0].vertices.len(), 48);
    assert_eq!(sub.geometries[0].indices, vec![0, 1, 2, 2, 3, 0]);
    assert_eq!(arena[0].index_count(), 6);
}

#[test]
fn mirror_goes_behind_what_the_arena_holds() {
    let first = Mesh::new(
        vec![triangle(material("a", "b", "c", "d"), v3(0.0, 0.0, 0.0))],
        v3(0.0, 0.0, 0.0),
        v3(1.0, 1.0, 1.0),
    )
    .unwrap();
    let second = Mesh::new(
        vec![
            triangle(material("d", "c", "b", "a"), v3(1.0, 0.0, 0.0)),
            triangle(material("e", "e", "e", "e"), v3(2.0, 0.0, 0.0)),
        ],
        v3(0.0, 0.0, 0.0),
        v3(1.0, 1.0, 1.0),
    )
    .unwrap();
    let mut arena: Vec<GpuPrimitive> = Vec::new();
    let mut textures = TextureCache::new();
    GpuMesh::new(&first, &mut arena, &mut textures);
    let before = arena.clone();
    let sub = GpuMesh::new(&second, &mut arena, &mut textures);
    assert_eq!(sub.mesh, GpuMesh { first: 1, count: 2 });
    assert_eq!(arena.len(), 3);
    assert_eq!(arena[0], before[0]);
    assert_eq!(arena[1].geometry(), GeometryHandle { id: 1 });
    assert_eq!(arena[2].geometry(), GeometryHandle { id: 2 });
    assert_eq!(sub.geometries[0].handle, GeometryHandle { id: 1 });
    assert_eq!(sub.geometries[1].handle, GeometryHandle { id: 2 });
    let uploaded: Vec<(usize, &str)> =
        sub.textures.iter().map(|u| (u.handle.id, u.source.as_str())).collect();
    assert_eq!(uploaded, vec![(4, "e")]);
    let h = |id: usize| TextureHandle { id };
    assert_eq!(
        arena[1].material(),
        GpuMaterial { albedo: h(3), metaghness: h(2), normal: h(1), occlusion: h(0) }
    );
}

#[test]
fn mirror_of_an_empty_mesh_adds_nothing() {
    let mesh = Mesh::new(Vec::new(), v3(0.0, 0.0, 0.0), v3(1.0, 1.0, 1.0)).unwrap();
    let mut arena: Vec<GpuPrimitive> = Vec::new();
    let mut textures = TextureCache::new();
    let sub = GpuMesh::new(&mesh, &mut arena, &mut textures);
    assert_eq!(sub.mesh, GpuMesh { first: 0, count: 0 });
    assert_eq!(arena.len(), 0);
    assert_eq!(textures.len(), 0);
    assert_eq!(sub.textures.len(), 0);
    assert_eq!(sub.geometries.len(), 0);
}

#[test]
fn transform_of_a_device_primitive_can_be_written() {
    let mesh = Mesh::new(
        vec![triangle(material("a", "b", "c", "d"), v3(1.0, 2.0, 3.0))],
        v3(0.0, 0.0, 0.0),
        v3(1.0, 1.0, 1.0),
    )
    .unwrap();
    let mut arena: Vec<GpuPrimitive> = Vec::new();
    let mut textures = TextureCache::new();
    GpuMesh::new(&mesh, &mut arena, &mut textures);
    let untouched = arena[0];
    *arena[0].translation_mut() = v3(9.0, 8.0, 7.0);
    arena[0].scaling_mut().y = 2.5f32.to_bits();
    assert_eq!(arena[0].translation(), v3(9.0, 8.0, 7.0));
    assert_eq!(arena[0].scaling(), v3(1.0, 2.5, 1.0));
    assert_eq!(arena[0].geometry(), untouched.geometry());
    assert_eq!(arena[0].material(), untouched.material());
    assert_eq!(arena[0].index_count(), untouched.index_count());
}
