[package]
name = "melee_music"
version = "0.1.0"
edition = "2021"
publish = false

[dependencies]
byteorder = "1"
rand = "0.7"
read-process-memory = "0.1"
rodio = "0.11"
serde = { version = "1", features = ["derive"] }
serde_json = "1"
sysinfo = "0.14"
