[package]
name = "kql_language_tools"
version = "0.1.0"
edition = "2021"
publish = false

[dependencies]
serde_json = "1"
libloading = "0.8"
once_cell = "1"
