[package]
name = "lcdd"
version = "0.1.0"
edition = "2021"
publish = false

[dependencies]
image = { version = "=0.25.10", default-features = false, features = ["bmp", "ico", "jpeg", "png", "webp", "gif"] }
anyhow = "=1.0.104"
serde = { version = "=1.0.229", features = ["derive"] }
config = { version = "=0.15.27", default-features = false, features = ["toml", "ron", "corn"] }
hidapi = { version = "=2.6.7", default-features = false, features = ["linux-native-basic-udev"] }
log = "=0.4.35"
fern = { version = "=0.7.1", features = ["colored"] }
humantime = "=2.4.0"
ctrlc = "=3.5.2"
chrono = { version = "=0.4.45", default-features = false, features = ["clock", "std"] }
sysinfo = { version = "=0.40.1", default-features = false, features = ["system", "component"] }
env_logger = { version = "=0.11.11", default-features = false }
iced = { version = "=0.14.0", default-features = false, features = ["advanced", "image-without-codecs", "tiny-skia", "x11", "thread-pool"] }
iced_runtime = "=0.14.0"
iced_tiny_skia = "=0.14.1"
iced_graphics = "=0.14.0"
font-kit = "=0.14.3"
pollster = "=0.4.0"
