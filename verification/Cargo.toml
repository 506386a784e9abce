[package]
name = "ripperx4"
version = "0.1.0"
edition = "2021"
publish = false

[dependencies]
serde = { version = "*", features = ["derive"] }
confy = "*"
home = "*"
log = "*"
simplelog = "*"
async-channel = "*"
ureq = "*"
minidom = "*"
anyhow = "*"
