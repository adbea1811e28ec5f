[package]
name = "machine_dialect"
version = "0.1.0"
edition = "2021"
publish = false

[dependencies]
regex = "1"
textwrap = "0.16"
serde = { version = "1", features = ["derive"] }
serde_yaml = "0.9"
clap = { version = "4", features = ["derive"] }
anyhow = "1"
pyo3 = { version = "0.22", features = ["extension-module"] }
