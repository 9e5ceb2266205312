[package]
name = "thetadata_terminal_manager"
version = "0.1.0"
edition = "2021"
publish = false

[dependencies]
confy = "0.5"
eframe = { version = "0.22", default-features = false, features = ["default_fonts", "glow"] }
encoding_rs = "0.8"
image = { version = "0.24", default-features = false, features = ["png"] }
keyring = "1"
rfd = "0.11"
serde = { version = "1", features = ["derive"] }
