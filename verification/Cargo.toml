[package]
name = "launcher_core"
version = "0.1.0"
edition = "2021"
publish = false

[dependencies]
uuid = { version = "*", features = ["v4"] }
zip = "*"
tokio = { version = "*", features = ["rt-multi-thread", "macros"] }
futures = "*"
reqwest = { version = "*", default-features = false, features = ["rustls-tls"] }
notify = "*"
serde = { version = "*", features = ["derive"] }
serde_json = "*"
winapi = { version = "*", features = ["winuser"] }
