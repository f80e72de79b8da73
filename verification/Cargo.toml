[package]
name = "voxel_terrain"
version = "0.1.0"
edition = "2021"

[dependencies]
noise = "0.9"
