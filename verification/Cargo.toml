[package]
name = "kacemon"
version = "0.2.0"
edition = "2021"
publish = false

[dependencies]
anyhow = "1"
clap = "4"
crossterm = "0.27"
dirs = "5"
nix = { version = "0.27", features = ["signal"] }
procfs = "0.16"
serde = { version = "1", features = ["derive"] }
serde_json = "1"
sysinfo = "0.30"
thiserror = "1"
