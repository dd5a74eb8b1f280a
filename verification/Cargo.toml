[package]
name = "tenori_ish"
version = "0.1.0"
edition = "2021"
publish = false

[dependencies]
color = "0.3"
rfd = { version = "0.15", default-features = false, features = ["xdg-portal", "tokio"] }
rodio = { version = "0.21", default-features = false, features = ["playback", "noise"] }
serde = { version = "1", features = ["derive"] }
tinyrand = "0.5"
tokio = { version = "1", features = ["macros", "rt-multi-thread"] }
toml = "0.9"
