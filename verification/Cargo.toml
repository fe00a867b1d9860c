[package]
name = "ark"
version = "0.1.0"
edition = "2021"
publish = false

[dependencies]
anyhow = "1"
bus = "2"
crossbeam = "0.8"
libc = "0.2"
log = "0.4"
nix = "0.26"
parking_lot = "0.12"
serde = { version = "1", features = ["derive"] }
serde_json = "1"
tokio = { version = "1", features = ["rt", "time"] }
tower-lsp = "0.20"
tree-sitter = "0.20"
