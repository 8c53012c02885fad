[package]
name = "acp_p2p"
version = "0.1.0"
edition = "2021"
publish = false

[dependencies]
chrono = { version = "0.4", default-features = false, features = ["clock", "std", "serde"] }
uuid = { version = "1", features = ["v4"] }
serde = { version = "1", features = ["derive"] }
serde_json = "1"
agent-client-protocol = "*"
libp2p = { version = "*", features = ["gossipsub", "mdns", "identify", "tcp", "noise", "yamux", "tokio", "macros"] }
tokio = { version = "1", features = ["rt-multi-thread", "macros", "io-std", "io-util"] }
clap = { version = "4", default-features = false, features = ["std", "derive", "help", "usage", "error-context"] }
futures = "0.3"
tracing = "0.1"
tracing-subscriber = { version = "0.3", default-features = false, features = ["env-filter", "fmt", "std", "ansi"] }
