[package]
name = "epitaph"
version = "0.1.0"
edition = "2021"
publish = false

[dependencies]
calloop = { version = "=0.14.5", features = ["signals"] }
calloop-wayland-source = "=0.4.1"
chrono = { version = "=0.4.45", default-features = false, features = ["clock", "std"] }
configory = "=0.7.0"
crossfont = "=0.9.0"
glutin = { version = "=0.32.3", default-features = false, features = ["egl", "wayland"] }
libc = "=0.2.191"
libpulse-binding = "=2.30.1"
raw-window-handle = "=0.6.2"
resvg = { version = "=0.48.1", default-features = false }
serde = { version = "=1.0.229", features = ["derive"] }
smithay-client-toolkit = { version = "=0.21.1", default-features = false, features = ["calloop", "system"] }
tokio = { version = "=1.54.1", default-features = false, features = ["rt", "macros"] }
tracing = "=0.1.44"
tracing-subscriber = { version = "=0.3.23", features = ["env-filter"] }
udev = "=0.9.3"
zbus = { version = "=6.1.0", default-features = false, features = ["tokio", "proxy", "object-manager"] }
