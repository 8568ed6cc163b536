[package]
name = "macchanger_lib"
version = "0.1.0"
edition = "2021"
publish = false

[dependencies]
macaddr = "1"
pci-ids = "0.2"
rand = "0.8"
nix = { version = "0.29", features = ["ioctl", "net", "socket"] }
clap = { version = "4", features = ["derive"] }
anyhow = "1"
thiserror = "1"
