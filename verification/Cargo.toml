[package]
name = "nyaterm_portable"
version = "0.1.0"
edition = "2021"
publish = false

[dependencies]
serde = { version = "1", features = ["derive"] }
serde_json = "1"
tauri = { version = "2", default-features = false }
tauri-plugin-updater = { version = "2", default-features = false }
time = { version = "0.3", features = ["formatting"] }
tracing = "0.1"
uuid = { version = "1", features = ["v4"] }
zip = { version = "*", default-features = false, features = ["deflate"] }
