[package]
name = "applet_memory"
version = "0.1.0"
edition = "2021"
publish = false

[dependencies]
sysinfo = { version = "0.39", default-features = false, features = ["system"] }
