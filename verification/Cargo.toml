[package]
name = "modal_input"
version = "0.1.0"
edition = "2021"
publish = false

[dependencies]
dirs = "=7.0.0"
failure = { version = "=0.1.8", default-features = false, features = ["std"] }
ncurses = "=5.99.0"
serde = { version = "=1.0.229", features = ["derive"] }
serde_json = "=1.0.154"
xi-rpc = "=0.3.0"
