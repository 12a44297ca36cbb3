[package]
name = "vault_shell"
version = "0.1.0"
edition = "2021"
publish = false

[dependencies]
url = "2"
tauri = { version = "2", default-features = false }
tokio = { version = "1", features = ["time"] }
