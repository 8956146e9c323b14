[package]
name = "sonicmix"
version = "0.1.0"
edition = "2021"
publish = false

[dependencies]
directories = "=5.0.1"
notify = "=6.1.1"
rosc = "=0.10.1"
serde = { version = "=1.0.229", features = ["derive"] }
tauri = { version = "2", default-features = false }
tauri-plugin-updater = { version = "2", default-features = false }
tokio = { version = "=1.54.1", features = ["rt", "rt-multi-thread", "sync"] }
