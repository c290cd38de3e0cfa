[package]
name = "raft_core"
version = "0.1.0"
edition = "2021"
publish = false

[dependencies]
rand = "0.8"
raft-proto = "0.7"
anyhow = "1"
slog = "2"
slog-async = "2"
slog-term = "2"
tokio = { version = "1", features = ["macros", "rt-multi-thread", "sync", "time"] }
