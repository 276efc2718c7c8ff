[package]
name = "tauritavern"
version = "0.1.0"
edition = "2021"
publish = false

[dependencies]
serde = { version = "1", features = ["derive"] }
serde_json = "1"
tokio = { version = "1", features = ["sync", "rt", "macros", "time"] }
async-trait = "0.1"
tracing = "0.1"
reqwest = { version = "0.12", default-features = false, features = ["json"] }
