[package]
name = "voxel_renderer"
version = "0.1.0"
edition = "2021"
publish = false

[dependencies]
gl = "=0.11.0"
gl_helpers = "=0.1.8"
gltf = "1"
glutin = { version = "0.29.1", default-features = false, features = ["x11"] }
imgui = "=0.11.0"
imgui-opengl-renderer = "=0.12.1"
imgui-winit-support = "=0.11.0"
nalgebra-glm = "=0.21.0"
