[package]
name = "nostail"
version = "0.1.0"
edition = "2021"
publish = false

[dependencies]
clap = { version = "=4.6.7", features = ["derive"] }
crossterm = { version = "=0.27.0", features = ["event-stream"] }
futures = "=0.3.34"
nostr-sdk = "=0.24.0"
tokio = { version = "=1.54.1", features = ["macros", "rt-multi-thread", "signal", "sync"] }
