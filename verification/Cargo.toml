[package]
name = "echovault_shell"
version = "0.1.0"
edition = "2021"
publish = false

[dependencies]
open = "5"
reqwest = { version = "0.12", default-features = false }
serde = { version = "1", features = ["derive"] }
tauri = { version = "2", default-features = false, features = ["tray-icon"] }
