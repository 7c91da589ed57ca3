[package]
name = "tauri_python_sidecar"
version = "0.1.0"
edition = "2021"
publish = false

[dependencies]
dirs = "6"
log = "0.4"
rusqlite = { version = "0.32", default-features = false, features = ["bundled"] }
serde = { version = "1", features = ["derive"] }
serde_json = "1"
tauri = { version = "2", default-features = false }
tokio = { version = "1", features = ["rt", "time"] }
