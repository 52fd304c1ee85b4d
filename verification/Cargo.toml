[package]
name = "vestigium"
version = "0.1.0"
edition = "2021"
publish = false

[dependencies]
goblin = "*"
serde = { version = "1", features = ["derive"] }
bincode = "1"
clap = { version = "4", features = ["derive"] }
windows = { version = "0.57", features = ["Win32_Foundation", "Win32_System_Hypervisor"] }
