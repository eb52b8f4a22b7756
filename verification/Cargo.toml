[package]
name = "kagi-tavily-bridge"
version = "0.1.0"
edition = "2021"
publish = false

[dependencies]
async-trait = "0.1.92"
axum = "0.8.9"
clap = { version = "4.6.7", features = ["derive", "env"] }
serde = { version = "1.0.229", features = ["derive"] }
serde_json = "1.0.154"
thiserror = "2.0.21"
tokio = { version = "1.54.1", features = ["macros", "rt-multi-thread", "net"] }
tracing = "0.1.44"
tracing-subscriber = { version = "0.3.23", features = ["env-filter"] }
