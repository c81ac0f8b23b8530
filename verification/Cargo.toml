[package]
name = "systemd_units"
version = "0.1.0"
edition = "2021"
publish = false

[dependencies]
zbus = { version = "4", default-features = false, features = ["tokio"] }
neon = "1"
tokio = { version = "1", features = ["rt-multi-thread", "time"] }
once_cell = "1"
