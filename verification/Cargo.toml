[package]
name = "rust_go_ffi"
version = "0.1.0"
edition = "2021"
publish = false

[dependencies]
colored = "*"
dirs = "*"
log = "*"
metrics = "*"
metrics-exporter-prometheus = "*"
once_cell = "*"
parking_lot = "*"
semver = "*"
winapi = { version = "0.3", features = ["libloaderapi", "minwindef"] }
