[package]
name = "vuio"
version = "0.1.0"
edition = "2021"
publish = false

[dependencies]
dirs = "*"
hostname = "*"
uuid = { version = "*", features = ["v4"] }
anyhow = "*"
async-trait = "*"
axum = "0.8"
chrono = "*"
clap = { version = "4", features = ["derive"] }
futures-util = "*"
libc = "*"
notify = "*"
notify-debouncer-full = "*"
num_cpus = "*"
reqwest = { version = "0.12", default-features = false }
serde = { version = "1", features = ["derive"] }
serde_json = "1"
sqlx = { version = "0.8", default-features = false, features = ["runtime-tokio", "sqlite"] }
thiserror = "*"
tokio = { version = "1", features = ["full"] }
tokio-util = { version = "*", features = ["io"] }
toml = "*"
tracing = "*"
tracing-subscriber = { version = "*", features = ["env-filter"] }
