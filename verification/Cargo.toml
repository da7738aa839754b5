[package]
name = "wiredesk_client"
version = "0.1.0"
edition = "2021"
publish = false

[dependencies]
arboard = { version = "3", default-features = false, features = ["image-data"] }
clap = { version = "4", features = ["derive"] }
dirs = "*"
eframe = { version = "0.31", default-features = false, features = ["default_fonts", "glow", "x11"] }
image = { version = "0.25", default-features = false, features = ["png"] }
log = "0.4"
serde = { version = "1", features = ["derive"] }
serialport = { version = "4", default-features = false }
thiserror = "*"
toml = "0.8"

[dev-dependencies]
tempfile = "3"
