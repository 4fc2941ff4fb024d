[package]
name = "screencast"
version = "0.1.0"
edition = "2021"
publish = false

[dependencies]
bincode = "1.3.3"
serde = { version = "1", features = ["derive"] }
serde_json = "1"
tokio = { version = "1", features = ["full"] }
rand = "0.8"
local-ip-address = "0.6"
url = "2"
futures = "0.3"
image = { version = "0.24", default-features = false, features = ["png"] }
xcap = "0.0.15"
mouse_position = "0.1"
winapi = { version = "0.3", features = ["windef", "wingdi", "winuser"] }
x11 = { version = "2", features = ["xlib", "xfixes"] }
