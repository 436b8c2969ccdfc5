[package]
name = "flash_sync"
version = "0.1.0"
edition = "2021"
publish = false

[dependencies]
sha2 = "0.10"
fuels = "0.66"
tokio = { version = "1", features = ["macros", "rt-multi-thread"] }
