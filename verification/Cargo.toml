[package]
name = "warpgate"
version = "0.1.0"
edition = "2021"
publish = false

[dependencies]
anyhow = "1"
async-trait = "0.1"
enum_dispatch = "0.3"
futures = "0.3"
http = "1"
percent-encoding = "2"
poem = { version = "3", features = ["websocket"] }
poem-openapi = "5"
reqwest = { version = "0.12", default-features = false, features = ["stream"] }
sea-orm = { version = "1", default-features = false, features = ["macros", "with-time", "with-uuid", "with-json"] }
sea-orm-migration = { version = "1", default-features = false }
serde = { version = "1", features = ["derive"] }
serde_json = "1"
time = "0.3"
tokio = { version = "1", features = ["macros", "rt", "sync", "time", "io-util"] }
tokio-tungstenite = "0.28"
tokio-util = "0.7"
tracing = "0.1"
url = "2"
uuid = { version = "1", features = ["v4"] }
