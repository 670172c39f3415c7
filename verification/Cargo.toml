[package]
name = "mavlink_ftp"
version = "0.1.0"
edition = "2021"
publish = false

[dependencies]
indicatif = "0.17"
mavlink = { version = "*", default-features = false, features = ["std", "common"] }
