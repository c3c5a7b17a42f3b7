[package]
name = "streamcap"
version = "0.1.0"
edition = "2021"
publish = false

[dependencies]
md5 = "0.7"
regex = "1"
url = "2"
serde = { version = "1", features = ["derive"] }
serde_json = "1"
time = { version = "0.3", features = ["local-offset", "formatting"] }
tokio = { version = "1", features = ["full"] }
reqwest = { version = "0.12", default-features = false, features = ["json"] }
axum = "0.7"
tower-http = { version = "0.5", features = ["cors", "trace"] }
clap = { version = "4", features = ["derive"] }
anyhow = "1"
thiserror = "1"
tracing = "0.1"
tracing-subscriber = { version = "0.3", features = ["env-filter", "time"] }
futures-util = "0.3"
async-trait = "0.1"
libc = "0.2"
rsmpeg = "0.15"
