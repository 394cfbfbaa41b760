[package]
name = "jackybot"
version = "0.1.0"
edition = "2021"
publish = false

[dependencies]
urlencoding = "*"
serde_json = "*"
smallvec = "*"
reqwest = { version = "*", default-features = false, features = ["json"] }
tokio = { version = "*", features = ["macros", "rt-multi-thread", "sync", "time"] }
parking_lot = "*"
serenity = "*"
