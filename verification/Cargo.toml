[package]
name = "raw_editor"
version = "0.1.0"
edition = "2021"
publish = false

[dependencies]
bytemuck = "1"
cgmath = "0.18"
chrono = { version = "0.4", default-features = false, features = ["now"] }
dirs = "5"
dirs-next = "2"
image = { version = "0.24", default-features = false, features = ["jpeg", "png"] }
rawloader = "0.37"
rusqlite = { version = "0.32", features = ["bundled"] }
serde = { version = "1", features = ["derive"] }
serde_json = "1"
tokio = { version = "1", features = ["rt-multi-thread"] }
walkdir = "2"
wgpu = { version = "0.19", default-features = false, features = ["wgsl"] }
