[package]
name = "paging_core"
version = "0.1.0"
edition = "2021"
publish = false

[dependencies]
audiopus = "*"
tokio = { version = "*", features = ["full"] }
socket2 = "*"
clap = { version = "*", features = ["derive"] }
serde = { version = "*", features = ["derive"] }
serde_json = "*"
hound = "*"
symphonia = "*"
rustfft = "*"
chrono = { version = "*", features = ["serde"] }
directories = "*"
toml = "*"
thiserror = "*"
tracing = "*"
tracing-subscriber = { version = "*", features = ["env-filter"] }
