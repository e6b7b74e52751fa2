[package]
name = "wg_mesh"
version = "0.1.0"
edition = "2021"
publish = false

[dependencies]
actix-web = { version = "4", default-features = false, features = ["macros"] }
actix-ws = "*"
axum = "*"
base64 = "0.22"
console = "*"
dirs = "*"
futures = "0.3"
futures-util = "0.3"
ipnetwork = { version = "*", features = ["serde"] }
libc = "0.2"
redis = { version = "*", features = ["aio", "tokio-comp"] }
reqwest = { version = "0.12", default-features = false, features = ["json", "rustls-tls"] }
rtnetlink = "*"
serde = { version = "1", features = ["derive"] }
serde_json = "1"
stunclient = "*"
thiserror = "2"
thiserror-ext = "*"
tokio = { version = "1", features = ["full"] }
tokio-tungstenite = "*"
toml = "0.5"
tower-http = { version = "*", features = ["trace"] }
tracing = "0.1"
tracing-actix-web = "*"
tracing-subscriber = { version = "0.3", features = ["env-filter"] }
url = "2"
wireguard-control = "*"
