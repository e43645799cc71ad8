[package]
name = "eb_raft"
version = "0.1.0"
edition = "2021"
publish = false

[dependencies]
raft = "0.7"
serde = { version = "1", features = ["derive"] }
bincode = "1"
tokio = { version = "1", features = ["full"] }
tonic = "*"
prost = "*"
clap = { version = "4", features = ["derive"] }
async-trait = "0.1"
log = "0.4"
slog = "2"
slog-term = "2"
slog-async = "2"
thiserror = "*"
tracing = "0.1"
