[package]
name = "wakatime_status"
version = "0.1.0"
edition = "2021"
publish = false

[dependencies]
configparser = "*"
dirs = "*"
reqwest = { version = "*", default-features = false }
tokio = { version = "*", features = ["macros", "rt-multi-thread"] }
