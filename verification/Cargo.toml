[package]
name = "nokhwa"
version = "0.1.0"
edition = "2021"
publish = false

[dependencies]
bytes = "1"
image = { version = "0.25", default-features = false, features = ["jpeg", "png"] }
thiserror = "1"
