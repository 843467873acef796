[package]
name = "frame_core"
version = "0.1.0"
edition = "2021"
publish = false

[dependencies]
regex = "1"
once_cell = "1"
serde = { version = "1", features = ["derive"] }
serde_json = "1"
thiserror = "1"
tokio = { version = "1", features = ["sync", "rt", "macros", "process", "io-util", "fs"] }
libc = "0.2"
image = { version = "0.25", default-features = false, features = ["jpeg", "png"] }
ndarray = "0.16"
anyhow = "1"
tracing = "0.1"
dirs = "5"
futures-util = "0.3"
reqwest = { version = "0.12", default-features = false, features = ["stream"] }
