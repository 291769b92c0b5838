[package]
name = "warpstash"
version = "0.1.0"
edition = "2021"
publish = false

[dependencies]
blake3 = "=1.8.7"
image = { version = "=0.25.10", default-features = false, features = ["bmp", "dds", "exr", "ff", "gif", "hdr", "ico", "jpeg", "png", "pnm", "qoi", "tga", "tiff", "webp"] }
anyhow = "=1.0.104"
directories = "=6.0.0"
rusqlite = { version = "=0.41.1", features = ["bundled"] }
serde = { version = "=1.0.229", features = ["derive"] }
toml = "=0.9.8"
tracing = "=0.1.44"
tracing-subscriber = { version = "=0.3.23", features = ["env-filter"] }
tokio = { version = "=1.54.1", features = ["macros", "rt-multi-thread", "signal", "sync"] }
libc = "=0.2.191"
wayland-client = "=0.31.15"
wayland-protocols-wlr = { version = "=0.3.12", features = ["client"] }
wl-clipboard-rs = "=0.9.5"
hyprland = "=0.3.13"
iced = { version = "=0.14.0", default-features = false, features = ["tiny-skia"] }
iced_layershell = { version = "=0.19.1", default-features = false }
