[package]
name = "vk-sync-fork"
version = "0.5.0"
edition = "2021"
publish = false

[dependencies]
ash = { version = "0.38", default-features = false, features = ["std", "debug"] }
smallvec = "1"
