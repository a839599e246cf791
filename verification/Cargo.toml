[package]
name = "fortress"
version = "0.1.0"
edition = "2021"
publish = false

[dependencies]
rand = "0.8"
rand_distr = "0.4"
uuid = { version = "1", features = ["v4"] }
serde = { version = "1", features = ["derive"] }
serde_json = "1"
strum = "0.26"
strum_macros = "0.26"
bevy = { version = "0.15", default-features = false }
bevy_kira_audio = { version = "0.21", default-features = false }
image = { version = "0.25", default-features = false, features = ["png"] }
rfd = { version = "0.15", default-features = false }
