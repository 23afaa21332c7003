use voxel_renderer::numeric::Vec3;
use voxel_renderer::volume::permitted_resolution;
use voxel_renderer::volume::resolution_choice;
use voxel_renderer::volume::VoxelVolume;
use voxel_renderer::volume::RESOLUTION_HIGH;
use voxel_renderer::volume::RESOLUTION_LOW;
use voxel_renderer::volume::RESOLUTION_MEDIUM;

fn v3(x: f32, y: f32, z: f32) -> Vec3 {
    Vec3::new(x.to_bits(), y.to_bits(), z.to_bits())
}

#[test]
fn resolutions_on_offer() {
    assert_eq!(RESOLUTION_LOW, 64);
    assert_eq!(RESOLUTION_MEDIUM, 128);
    assert_eq!(RESOLUTION_HIGH, 256);
    assert_eq!(resolution_choice(0), Some(64));
    assert_eq!(resolution_choice(1), Some(128));
    assert_eq!(resolution_choice(2), Some(256));
    assert_eq!(resolution_choice(3), None);
    assert_eq!(resolution_choice(usize::MAX), None);
    for index in 0..3 {
        assert_eq!(permitted_resolution(resolution_choice(index).unwrap()), true);
    }
}

#[test]
fn new_volume_is_the_unit_box() {
    let volume = VoxelVolume::new(128);
    assert_eq!(volume.translation, v3(0.0, 0.0, 0.0));
    assert_eq!(volume.scaling, v3(1.0, 1.0, 1.0));
    assert_eq!(volume.view_translation, v3(0.0, 0.0, 0.0));
    assert_eq!(volume.view_scaling, v3(1.0, 1.0, 1.0));
    assert_eq!(volume.resolution, 128);
    assert_eq!(volume.usable(), true);
}

#[test]
fn volume_is_usable_exactly_with_positive_resolution_and_scalings() {
    for resolution in [1, 2, 64, 100, 128, 256, 1024, i32::MAX].iter() {
        assert_eq!(VoxelVolume::new(*resolution).usable(), true);
    }
    for resolution in [0, -1, -128, i32::MIN].iter() {
        assert_eq!(VoxelVolume::new(*resolution).usable(), false);
    }
    let mut volume = VoxelVolume::new(64);
    volume.scaling = v3(10.0, 0.0, 10.0);
    assert_eq!(volume.usable(), false);
    volume.scaling = v3(10.0, 10.1, 12.0);
    assert_eq!(volume.usable(), true);
    volume.view_scaling = v3(-10.0, 10.0, 10.0);
    assert_eq!(volume.usable(), false);
    volume.view_scaling = v3(24.0, 10.1, 12.0);
    assert_eq!(volume.usable(), true);
    // translations may be anything
    volume.translation = v3(-5.0, 0.0, f32::NAN);
    volume.view_translation = v3(0.0, -0.0, f32::NEG_INFINITY);
    assert_eq!(volume.usable(), true);
}

#[test]
fn accessors_write_one_field_each() {
    let mut volume = VoxelVolume::new(64);
    *volume.translation_mut() = v3(1.0, 2.0, 3.0);
    assert_eq!(volume, VoxelVolume { translation: v3(1.0, 2.0, 3.0), ..VoxelVolume::new(64) });
    *volume.scaling_mut() = v3(4.0, 5.0, 6.0);
    *volume.view_translation_mut() = v3(7.0, 8.0, 9.0);
    *volume.view_scaling_mut() = v3(10.0, 11.0, 12.0);
    *volume.resolution_mut() = 256;
    assert_eq!(
        volume,
        VoxelVolume {
            translation: v3(1.0, 2.0, 3.0),
            scaling: v3(4.0, 5.0, 6.0),
            view_translation: v3(7.0, 8.0, 9.0),
            view_scaling: v3(10.0, 11.0, 12.0),
            resolution: 256,
        }
    );
    volume.scaling_mut().x = 0.5f32.to_bits();
    assert_eq!(volume.scaling, v3(0.5, 5.0, 6.0));
}

#[test]
fn resolution_can_be_forced_to_any_value() {
    let mut volume = VoxelVolume::new(64);
    for resolution in [0, -7, 3, 65, i32::MIN, i32::MAX].iter() {
        *volume.resolution_mut() = *resolution;
        assert_eq!(volume.resolution, *resolution);
        assert_eq!(volume.usable(), *resolution > 0);
    }
}
