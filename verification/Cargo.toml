[package]
name = "platform_09_26"
version = "0.1.0"
edition = "2021"
publish = false

[dependencies]
async-trait = "0.1"
chrono = "0.4"
serde_json = "1"
tokio = { version = "1", features = ["macros", "rt", "time"] }
tokio-postgres = { version = "0.7", features = ["with-chrono-0_4", "with-serde_json-1"] }
uuid = { version = "1", features = ["v4"] }
