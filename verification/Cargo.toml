[package]
name = "bevy_gstreamer"
version = "0.1.0"
edition = "2021"
publish = false

[dependencies]
bevy = { version = "=0.16.1", default-features = false, features = ["bevy_asset", "bevy_core_pipeline", "bevy_render"] }
bytemuck = { version = "=1.25.2", features = ["derive"] }
glib = "=0.20.12"
gstreamer = "=0.23.7"
gstreamer-app = "=0.23.5"
gstreamer-video = "=0.23.6"
image = { version = "=0.25.10", default-features = false }
jpeg-decoder = { version = "=0.3.2", default-features = false, features = ["platform_independent"] }
regex = "=1.13.1"
thiserror = "=1.0.69"
