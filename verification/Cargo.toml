[package]
name = "tiny-dfr"
version = "0.4.0"
edition = "2021"
publish = false

[dependencies]
anyhow = "1"
cairo-rs = { version = "*", features = ["freetype", "png"] }
chrono = { version = "0.4", features = ["unstable-locales"] }
drm = "*"
freedesktop-icons = "*"
freetype-rs = "*"
image = { version = "0.25", default-features = false, features = ["bmp", "gif", "ico", "jpeg", "png", "webp"] }
input = "*"
input-linux = { version = "*", features = ["serde"] }
input-linux-sys = "*"
libc = "0.2"
librsvg-rebind = "*"
nix = { version = "*", features = ["event", "inotify", "signal"] }
privdrop = "*"
serde = { version = "1", features = ["derive"] }
serde_json = "1"
toml = "*"
tungstenite = "*"
udev = "*"
ureq = "3"
zbus = "5"
