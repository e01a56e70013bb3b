[package]
name = "emulator"
version = "0.1.0"
edition = "2021"
publish = false

[dependencies]
rand = "0.9"
thiserror = "2"
tracing = "0.1"
tracing-subscriber = { version = "0.3", features = ["json"] }
derive_more = { version = "2", features = ["from"] }
pyo3 = "0.26"
app_dirs2 = "2"
anyhow = "1"
clap = { version = "4", features = ["derive"] }
