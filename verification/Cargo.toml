[package]
name = "pdf_analyzer"
version = "0.1.0"
edition = "2021"
publish = false

[dependencies]
pdfium-render = { version = "=0.8.37", features = ["image"] }
image = "=0.25.10"
crossbeam-channel = "=0.5.17"
oneshot = { version = "=0.2.1", features = ["std"] }
serde = { version = "=1.0.229", features = ["derive"] }
toml = "=1.1.7"
dirs = "=7.0.0"
