use voxel_renderer::camera::CameraMatrices;
use voxel_renderer::command::Command;
use voxel_renderer::command::GeometryHandle;
use voxel_renderer::command::TextureHandle;
use voxel_renderer::command::UploadReport;
use voxel_renderer::error::RenderError;
use voxel_renderer::gpu_mesh::GpuMesh;
use voxel_renderer::light::Light;
use voxel_renderer::mode::RenderingMode;
use voxel_renderer::mode::VoxelizationMode;
use voxel_renderer::numeric::Mat4;
use voxel_renderer::numeric::Vec2;
use voxel_renderer::numeric::Vec3;
use voxel_renderer::numeric::Vec4;
use voxel_renderer::renderer::Renderer;
use voxel_renderer::frame::CLEAR_SHADE;
use voxel_renderer::scene::Material;
use voxel_renderer::scene::Mesh;
use voxel_renderer::scene::Primitive;
use voxel_renderer::scene::Vertex;
use voxel_renderer::shader::ShaderProgram;
use voxel_renderer::shader::UniformName;
use voxel_renderer::volume::permitted_resolution;
use voxel_renderer::volume::VoxelVolume;

fn v3(x: f32, y: f32, z: f32) -> Vec3 {
    Vec3::new(x.to_bits(), y.to_bits(), z.to_bits())
}

fn program() -> ShaderProgram {
    ShaderProgram::new(
        ["time", "proj", "view", "albedo", "metaghness", "normal", "occlusion"]
            .iter()
            .map(|s| s.to_string())
            .collect(),
    )
}

fn renderer() -> Renderer {
    Renderer::new(program(), (1280, 720), 64).unwrap()
}

fn matrix(seed: f32) -> Mat4 {
    let mut m = [0u32; 16];
    for (i, w) in m.iter_mut().enumerate() {
        *w = (seed + i as f32).to_bits();
    }
    Mat4::new(m)
}

fn camera() -> CameraMatrices {
    CameraMatrices::new(matrix(1.0), matrix(100.0))
}

fn material(name: &str) -> Material {
    Material {
        albedo: format!("{}/albedo.png", name),
        metaghness: format!("{}/metaghness.png", name),
        normal: format!("{}/normal.png", name),
        occlusion: format!("{}/occlusion.png", name),
    }
}

/// A cube with four vertices per face and two triangles per face.
fn cube(name: &str, at: Vec3) -> Primitive {
    let mut vertices = Vec::new();
    let mut indices = Vec::new();
    for face in 0..6u32 {
        for corner in 0..4u32 {
            let x = if corner & 1 == 0 { -1.0 } else { 1.0 };
            let y = if corner & 2 == 0 { -1.0 } else { 1.0 };
            vertices.push(Vertex {
                position: v3(x, y, face as f32),
                normal: v3(0.0, 0.0, 1.0),
                uv: Vec2::new(x.to_bits(), y.to_bits()),
                tangent: Vec4::new(1.0f32.to_bits(), 0, 0, 1.0f32.to_bits()),
            });
        }
        let base = 4 * face;
        indices.extend_from_slice(&[base, base + 1, base + 2, base + 2, base + 1, base + 3]);
    }
    Primitive { vertices, indices, translation: at, scaling: v3(1.0, 1.0, 1.0), material: material(name) }
}

fn cube_mesh(name: &str, at: Vec3) -> Mesh {
    Mesh::new(vec![cube(name, at)], at, v3(1.0, 1.0, 1.0)).unwrap()
}

fn prologue(width: usize, height: usize, mode: RenderingMode) -> Vec<Command> {
    vec![
        Command::Viewport { width, height },
        Command::ClearColor {
            red: 0.1f32.to_bits(),
            green: 0.1f32.to_bits(),
            blue: 0.1f32.to_bits(),
            alpha: 1.0f32.to_bits(),
        },
        Command::Clear { color: true, depth: true, stencil: true },
        Command::UseProgram,
        Command::SetMat4 { uniform: UniformName::Proj, matrix: matrix(100.0) },
        Command::SetMat4 { uniform: UniformName::View, matrix: matrix(1.0) },
        Command::SetRenderingMode { rendering: mode },
    ]
}

fn unit_voxelization(mode: VoxelizationMode, resolution: u32) -> Command {
    Command::SetVoxelization {
        voxelization: mode,
        translation: v3(0.0, 0.0, 0.0),
        scaling: v3(1.0, 1.0, 1.0),
        view_translation: v3(0.0, 0.0, 0.0),
        view_scaling: v3(1.0, 1.0, 1.0),
        resolution,
    }
}

fn sun() -> Command {
    Command::SetLight {
        index: 0,
        light: Light { direction: v3(0.0, -1.0, 0.0), color: v3(1.0, 1.0, 1.0) },
    }
}

fn draw(id: usize, at: Vec3, textures: [usize; 4], index_count: usize) -> Vec<Command> {
    vec![
        Command::BindGeometry { geometry: GeometryHandle { id } },
        Command::SetTransform { translation: at, scaling: v3(1.0, 1.0, 1.0) },
        Command::BindTexture {
            sampler: UniformName::Albedo,
            texture: TextureHandle { id: textures[0] },
            unit: 0,
        },
        Command::BindTexture {
            sampler: UniformName::Metaghness,
            texture: TextureHandle { id: textures[1] },
            unit: 1,
        },
        Command::BindTexture {
            sampler: UniformName::Normal,
            texture: TextureHandle { id: textures[2] },
            unit: 2,
        },
        Command::BindTexture {
            sampler: UniformName::Occlusion,
            texture: TextureHandle { id: textures[3] },
            unit: 3,
        },
        Command::DrawTriangles { index_count },
    ]
}

#[test]
fn clear_shade_is_one_tenth() {
    assert_eq!(CLEAR_SHADE, 0.1f32.to_bits());
}

#[test]
fn new_renderer_starts_empty_with_a_sun() {
    let mut r = renderer();
    assert_eq!(r.primitive_count(), 0);
    assert_eq!(r.meshes().len(), 0);
    assert_eq!(r.textures().len(), 0);
    assert_eq!(r.viewport_size(), (1280, 720));
    assert_eq!(r.rendering_mode(), RenderingMode::Scene);
    assert_eq!(r.voxelization_mode(), VoxelizationMode::FragmentOnly);
    assert_eq!(*r.volume(), VoxelVolume::new(64));
    assert_eq!(r.light_count(), 1);
    assert_eq!(
        r.light(0).map(|l| *l),
        Some(Light { direction: v3(0.0, -1.0, 0.0), color: v3(1.0, 1.0, 1.0) })
    );
    assert_eq!(r.program().uniform_count(), 7);
}

#[test]
fn new_renderer_needs_every_uniform() {
    let all = ["time", "proj", "view", "albedo", "metaghness", "normal", "occlusion"];
    for lacking in all.iter() {
        let names: Vec<String> =
            all.iter().filter(|n| *n != lacking).map(|s| s.to_string()).collect();
        let result = Renderer::new(ShaderProgram::new(names), (1, 1), 64);
        assert_eq!(result.err(), Some(RenderError::ShaderUniform));
    }
    assert_eq!(
        Renderer::new(ShaderProgram::new(Vec::new()), (1, 1), 64).err(),
        Some(RenderError::ShaderUniform)
    );
}

#[test]
fn setup_prepares_the_device() {
    let r = Renderer::new(program(), (640, 480), 128).unwrap();
    assert_eq!(
        r.setup(),
        vec![
            Command::SetDefaults,
            Command::FrontFace { clockwise: true },
            Command::Viewport { width: 640, height: 480 },
            Command::UseProgram,
            Command::SetFloat { uniform: UniformName::Time, value: 1.0f32.to_bits() },
        ]
    );
}

#[test]
fn frame_of_an_empty_scene() {
    let r = renderer();
    let mut expected = prologue(1280, 720, RenderingMode::Scene);
    expected.push(unit_voxelization(VoxelizationMode::FragmentOnly, 64));
    expected.push(sun());
    assert_eq!(r.render(&camera()), expected);
}

#[test]
fn submitted_cube_has_one_primitive_with_36_indices() {
    let mut r = renderer();
    let sub = r.submit_mesh(&cube_mesh("cube", v3(0.0, 0.0, 0.0)));
    assert_eq!(sub.mesh, GpuMesh { first: 0, count: 1 });
    let primitives = r.primitives_mut();
    assert_eq!(primitives.len(), 1);
    assert_eq!(primitives[0].index_count(), 36);
    assert_eq!(primitives[0].translation(), v3(0.0, 0.0, 0.0));
    assert_eq!(r.primitive_count(), 1);
    assert_eq!(r.meshes(), &[GpuMesh { first: 0, count: 1 }]);
}

#[test]
fn frame_of_one_cube() {
    let mut r = renderer();
    r.submit_mesh(&cube_mesh("cube", v3(0.0, 0.0, 0.0)));
    let mut expected = prologue(1280, 720, RenderingMode::Scene);
    expected.push(unit_voxelization(VoxelizationMode::FragmentOnly, 64));
    expected.push(sun());
    expected.extend(draw(0, v3(0.0, 0.0, 0.0), [0, 1, 2, 3], 36));
    assert_eq!(r.render(&camera()), expected);
}

#[test]
fn device_mesh_has_as_many_primitives_as_the_mesh() {
    let mut r = renderer();
    let mut first = 0;
    for n in [0usize, 1, 2, 5, 3].iter() {
        let primitives: Vec<Primitive> =
            (0..*n).map(|i| cube(&format!("m{}p{}", n, i), v3(i as f32, 0.0, 0.0))).collect();
        let mesh = Mesh::new(primitives, v3(0.0, 0.0, 0.0), v3(1.0, 1.0, 1.0)).unwrap();
        let sub = r.submit_mesh(&mesh);
        assert_eq!(sub.mesh.count, mesh.primitive_count());
        assert_eq!(sub.mesh.first, first);
        assert_eq!(sub.geometries.len(), *n);
        first += n;
        assert_eq!(r.primitive_count(), first);
    }
    assert_eq!(r.meshes().len(), 5);
    let total: usize = r.meshes().iter().map(|m| m.count).sum();
    assert_eq!(total, r.primitive_count());
    for (i, p) in r.primitives().iter().enumerate() {
        assert_eq!(p.geometry(), GeometryHandle { id: i });
    }
}

#[test]
fn primitives_are_drawn_in_submission_order() {
    let mut r = renderer();
    r.submit_mesh(&cube_mesh("a", v3(1.0, 0.0, 0.0)));
    let second = Mesh::new(
        vec![cube("b", v3(2.0, 0.0, 0.0)), cube("a", v3(3.0, 0.0, 0.0))],
        v3(0.0, 0.0, 0.0),
        v3(1.0, 1.0, 1.0),
    )
    .unwrap();
    r.submit_mesh(&second);
    let mut expected = prologue(1280, 720, RenderingMode::Scene);
    expected.push(unit_voxelization(VoxelizationMode::FragmentOnly, 64));
    expected.push(sun());
    expected.extend(draw(0, v3(1.0, 0.0, 0.0), [0, 1, 2, 3], 36));
    expected.extend(draw(1, v3(2.0, 0.0, 0.0), [4, 5, 6, 7], 36));
    expected.extend(draw(2, v3(3.0, 0.0, 0.0), [0, 1, 2, 3], 36));
    assert_eq!(r.render(&camera()), expected);
}

#[test]
fn materials_with_the_same_sources_share_textures() {
    let mut r = renderer();
    let first = r.submit_mesh(&cube_mesh("shared", v3(0.0, 0.0, 0.0)));
    let second = r.submit_mesh(&cube_mesh("shared", v3(5.0, 0.0, 0.0)));
    assert_eq!(first.textures.len(), 4);
    assert_eq!(second.textures.len(), 0);
    assert_eq!(second.geometries.len(), 1);
    assert_eq!(r.textures().len(), 4);
    let primitives = r.primitives();
    assert_eq!(primitives[0].material(), primitives[1].material());
    assert_ne!(primitives[0].geometry(), primitives[1].geometry());
}

#[test]
fn submission_lists_the_uploads() {
    let mut r = renderer();
    let mesh = cube_mesh("crate", v3(0.0, 0.0, 0.0));
    let sub = r.submit_mesh(&mesh);
    let sources: Vec<(usize, &str)> =
        sub.textures.iter().map(|u| (u.handle.id, u.source.as_str())).collect();
    assert_eq!(
        sources,
        vec![
            (0, "crate/albedo.png"),
            (1, "crate/metaghness.png"),
            (2, "crate/normal.png"),
            (3, "crate/occlusion.png"),
        ]
    );
    assert_eq!(sub.geometries[0].handle, GeometryHandle { id: 0 });
    assert_eq!(sub.geometries[0].indices, mesh.primitives()[0].indices);
    assert_eq!(sub.geometries[0].vertices.len(), 24 * 12);
    assert_eq!(sub.geometries[0].vertices[0], (-1.0f32).to_bits());
}

#[test]
fn resized_viewport_is_used_by_later_frames() {
    let mut r = renderer();
    r.submit_mesh(&cube_mesh("cube", v3(0.0, 0.0, 0.0)));
    for size in [(800usize, 600usize), (1, 1), (0, 0), (3840, 2160), (usize::MAX, 7)].iter() {
        r.set_viewport_size(*size);
        assert_eq!(r.viewport_size(), *size);
        for _ in 0..2 {
            let frame = r.render(&camera());
            assert_eq!(frame[0], Command::Viewport { width: size.0, height: size.1 });
            let viewports: Vec<&Command> =
                frame.iter().filter(|c| matches!(c, Command::Viewport { .. })).collect();
            assert_eq!(viewports, vec![&Command::Viewport { width: size.0, height: size.1 }]);
        }
    }
}

#[test]
fn volume_takes_every_permitted_resolution() {
    for resolution in [64, 128, 256].iter() {
        assert_eq!(permitted_resolution(*resolution), true);
        assert_eq!(VoxelVolume::new(*resolution).usable(), true);
        let mut r = renderer();
        *r.volume_mut().resolution_mut() = *resolution;
        assert_eq!(r.volume().resolution, *resolution);
        let frame = r.render(&camera());
        assert_eq!(
            frame[7],
            unit_voxelization(VoxelizationMode::FragmentOnly, *resolution as u32)
        );
    }
    assert_eq!(permitted_resolution(0), false);
    assert_eq!(permitted_resolution(32), false);
    assert_eq!(permitted_resolution(512), false);
    assert_eq!(permitted_resolution(-64), false);
}

#[test]
fn degenerate_resolution_skips_the_voxelization_pass() {
    for resolution in [0, -1, -64, i32::MIN].iter() {
        let mut r = renderer();
        r.submit_mesh(&cube_mesh("cube", v3(0.0, 0.0, 0.0)));
        *r.volume_mut().resolution_mut() = *resolution;
        assert_eq!(r.volume().usable(), false);
        let mut expected = prologue(1280, 720, RenderingMode::Scene);
        expected.push(sun());
        expected.extend(draw(0, v3(0.0, 0.0, 0.0), [0, 1, 2, 3], 36));
        assert_eq!(r.render(&camera()), expected);
    }
}

#[test]
fn degenerate_scaling_skips_the_voxelization_pass() {
    let bad = [0.0f32, -0.0, -1.0, f32::NAN, f32::NEG_INFINITY];
    for x in bad.iter() {
        let mut r = renderer();
        r.volume_mut().scaling_mut().y = x.to_bits();
        let frame = r.render(&camera());
        assert_eq!(frame.iter().any(|c| matches!(c, Command::SetVoxelization { .. })), false);
        let mut r = renderer();
        r.volume_mut().view_scaling_mut().z = x.to_bits();
        let frame = r.render(&camera());
        assert_eq!(frame.iter().any(|c| matches!(c, Command::SetVoxelization { .. })), false);
    }
}

#[test]
fn voxelization_pass_carries_the_volume() {
    let mut r = renderer();
    {
        let volume = r.volume_mut();
        *volume.translation_mut() = v3(0.0, 5.0, 0.0);
        *volume.scaling_mut() = v3(24.0, 10.1, 12.0);
        *volume.view_translation_mut() = v3(10.15, 5.0, 0.0);
        *volume.view_scaling_mut() = v3(10.0, 10.0, 10.0);
        *volume.resolution_mut() = 256;
    }
    *r.voxelization_mode_mut() = VoxelizationMode::Hybrid;
    let frame = r.render(&camera());
    assert_eq!(
        frame[7],
        Command::SetVoxelization {
            voxelization: VoxelizationMode::Hybrid,
            translation: v3(0.0, 5.0, 0.0),
            scaling: v3(24.0, 10.1, 12.0),
            view_translation: v3(10.15, 5.0, 0.0),
            view_scaling: v3(10.0, 10.0, 10.0),
            resolution: 256,
        }
    );
}

#[test]
fn rendering_mode_changes_one_command_and_no_resource() {
    let mut r = renderer();
    r.submit_mesh(&cube_mesh("cube", v3(0.0, 0.0, 0.0)));
    *r.rendering_mode_mut() = RenderingMode::Albedo;
    let primitives_before: Vec<_> = r.primitives().to_vec();
    let meshes_before: Vec<_> = r.meshes().to_vec();
    let textures_before = r.textures().len();
    let albedo = r.render(&camera());
    *r.rendering_mode_mut() = RenderingMode::Normal;
    let normal = r.render(&camera());
    assert_eq!(albedo[6], Command::SetRenderingMode { rendering: RenderingMode::Albedo });
    assert_eq!(normal[6], Command::SetRenderingMode { rendering: RenderingMode::Normal });
    assert_eq!(albedo.len(), normal.len());
    for k in 0..albedo.len() {
        if k != 6 {
            assert_eq!(albedo[k], normal[k]);
        }
    }
    assert_eq!(r.primitives().to_vec(), primitives_before);
    assert_eq!(r.meshes().to_vec(), meshes_before);
    assert_eq!(r.textures().len(), textures_before);
    // rendering again under the first mode gives the first frame again
    *r.rendering_mode_mut() = RenderingMode::Albedo;
    assert_eq!(r.render(&camera()), albedo);
}

#[test]
fn every_combination_of_modes_is_laid_out() {
    let renderings = [
        RenderingMode::Albedo,
        RenderingMode::Normal,
        RenderingMode::Emission,
        RenderingMode::Radiance,
        RenderingMode::Scene,
    ];
    let voxelizations = [VoxelizationMode::FragmentOnly, VoxelizationMode::Hybrid];
    let mut r = renderer();
    r.submit_mesh(&cube_mesh("cube", v3(0.0, 0.0, 0.0)));
    for rendering in renderings.iter() {
        for voxelization in voxelizations.iter() {
            *r.rendering_mode_mut() = *rendering;
            *r.voxelization_mode_mut() = *voxelization;
            assert_eq!(r.rendering_mode(), *rendering);
            assert_eq!(r.voxelization_mode(), *voxelization);
            let mut expected = prologue(1280, 720, *rendering);
            expected.push(unit_voxelization(*voxelization, 64));
            expected.push(sun());
            expected.extend(draw(0, v3(0.0, 0.0, 0.0), [0, 1, 2, 3], 36));
            assert_eq!(r.render(&camera()), expected);
        }
    }
}

#[test]
fn rendering_twice_gives_the_same_commands() {
    let mut r = renderer();
    r.submit_mesh(&cube_mesh("a", v3(0.0, 0.0, 0.0)));
    r.submit_mesh(&cube_mesh("b", v3(1.0, 2.0, 3.0)));
    let first = r.render(&camera());
    let second = r.render(&camera());
    assert_eq!(first, second);
    assert_eq!(first.len(), 7 + 1 + 1 + 2 * 7);
}

#[test]
fn frame_follows_the_camera() {
    let r = renderer();
    let other = CameraMatrices::new(matrix(7.0), matrix(9.0));
    let frame = r.render(&other);
    assert_eq!(frame[4], Command::SetMat4 { uniform: UniformName::Proj, matrix: matrix(9.0) });
    assert_eq!(frame[5], Command::SetMat4 { uniform: UniformName::View, matrix: matrix(7.0) });
}

#[test]
fn frame_follows_the_transform_of_a_primitive() {
    let mut r = renderer();
    r.submit_mesh(&cube_mesh("cube", v3(0.0, 0.0, 0.0)));
    {
        let primitives = r.primitives_mut();
        primitives[0].translation_mut().z = 4.5f32.to_bits();
        *primitives[0].scaling_mut() = v3(2.0, 2.0, 2.0);
    }
    let frame = r.render(&camera());
    assert_eq!(
        frame[10],
        Command::SetTransform { translation: v3(0.0, 0.0, 4.5), scaling: v3(2.0, 2.0, 2.0) }
    );
    assert_eq!(frame[15], Command::DrawTriangles { index_count: 36 });
}

#[test]
fn light_can_be_written_and_is_laid_out() {
    let mut r = renderer();
    {
        let light = r.light(0).unwrap();
        light.color = v3(1.0, 0.5, 0.25);
        light.direction = v3(0.0, 0.0, -1.0);
    }
    let frame = r.render(&camera());
    assert_eq!(
        frame[8],
        Command::SetLight {
            index: 0,
            light: Light { direction: v3(0.0, 0.0, -1.0), color: v3(1.0, 0.5, 0.25) },
        }
    );
}

#[test]
fn light_beyond_the_last_is_none() {
    let mut r = renderer();
    assert_eq!(r.light(1), None);
    assert_eq!(r.light(usize::MAX), None);
    assert_eq!(r.light_count(), 1);
}

#[test]
fn settled_submission_stands_after_success() {
    let mut r = renderer();
    let sub = r.submit_mesh(&cube_mesh("cube", v3(0.0, 0.0, 0.0)));
    assert_eq!(r.settle(&sub, UploadReport::Done), Ok(sub.mesh));
    assert_eq!(r.primitive_count(), 1);
    assert_eq!(r.textures().len(), 4);
    assert_eq!(r.meshes().len(), 1);
}

#[test]
fn failed_submission_leaves_no_trace() {
    let mut r = renderer();
    r.submit_mesh(&cube_mesh("kept", v3(0.0, 0.0, 0.0)));
    let before = r.render(&camera());
    let mesh = Mesh::new(
        vec![cube("kept", v3(1.0, 0.0, 0.0)), cube("broken", v3(2.0, 0.0, 0.0))],
        v3(0.0, 0.0, 0.0),
        v3(1.0, 1.0, 1.0),
    )
    .unwrap();
    let sub = r.submit_mesh(&mesh);
    assert_eq!(r.primitive_count(), 3);
    assert_eq!(r.textures().len(), 8);
    assert_eq!(r.settle(&sub, UploadReport::DecodeFailed), Err(RenderError::AssetLoad));
    assert_eq!(r.primitive_count(), 1);
    assert_eq!(r.meshes(), &[GpuMesh { first: 0, count: 1 }]);
    assert_eq!(r.textures().len(), 4);
    assert_eq!(r.textures().lookup("broken/albedo.png"), None);
    assert_eq!(r.render(&camera()), before);
    // the same mesh can be submitted again and gets the same handles
    let again = r.submit_mesh(&mesh);
    assert_eq!(again, sub);
}

#[test]
fn failed_allocation_is_a_gpu_resource_error() {
    let mut r = renderer();
    let sub = r.submit_mesh(&cube_mesh("cube", v3(0.0, 0.0, 0.0)));
    assert_eq!(r.settle(&sub, UploadReport::AllocationFailed), Err(RenderError::GpuResource));
    assert_eq!(r.primitive_count(), 0);
    assert_eq!(r.meshes().len(), 0);
    assert_eq!(r.textures().len(), 0);
}

#[test]
fn only_the_latest_submission_is_taken_back() {
    let mut r = renderer();
    let first = r.submit_mesh(&cube_mesh("first", v3(0.0, 0.0, 0.0)));
    r.submit_mesh(&cube_mesh("second", v3(0.0, 0.0, 0.0)));
    assert_eq!(r.settle(&first, UploadReport::DecodeFailed), Err(RenderError::AssetLoad));
    assert_eq!(r.primitive_count(), 2);
    assert_eq!(r.meshes().len(), 2);
    assert_eq!(r.textures().len(), 8);
}
