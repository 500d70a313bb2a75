[package]
name = "ignis"
version = "0.1.0"
edition = "2021"
publish = false

[dependencies]
vulkanalia = { version = "*", features = ["libloading", "window"] }
raw-window-handle = "0.6"
thiserror = "*"
bitflags = "2"

[dev-dependencies]
anyhow = "1"
