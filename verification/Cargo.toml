[package]
name = "kromer"
version = "0.2.0"
edition = "2021"
publish = false

[dependencies]
chrono = "0.4"
croner = "3"
dashmap = "6"
scc = "3"
uuid = { version = "1", features = ["v4"] }
actix-cors = "0.7"
actix-web = "4"
actix-web-httpauth = "0.8"
actix-ws = "0.3"
dotenvy = "0.15"
futures-util = "0.3"
rust_decimal = "1"
serde = { version = "1", features = ["derive"] }
serde_json = "1"
sqlx = { version = "0.8", default-features = false, features = ["postgres", "runtime-tokio", "chrono", "rust_decimal", "derive", "migrate"] }
thiserror = "2"
tokio = { version = "1", features = ["sync", "time", "rt", "macros"] }
tokio-retry2 = "*"
tracing = "0.1"
tracing-subscriber = "0.3"

[dev-dependencies]
regex = "1"
