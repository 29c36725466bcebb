[package]
name = "omt_tools"
version = "0.1.0"
edition = "2021"
publish = false

[dependencies]
openmediatransport = "*"
if-addrs = "*"
anyhow = "*"
ctrlc = "*"
clap = { version = "*", features = ["derive"] }
