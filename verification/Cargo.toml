[package]
name = "strumbot"
version = "0.1.0"
edition = "2021"
publish = false

[dependencies]
hashbrown = "=0.17.1"
lru = "=0.19.0"
regex = "=1.13.1"
serde = { version = "=1.0.229", features = ["derive"] }
serde_json = "=1.0.154"
tokio = { version = "=1.54.1", features = ["rt-multi-thread", "macros", "fs", "time", "sync"] }
reqwest = { version = "=0.12.28", default-features = false, features = ["rustls-tls"] }
time = { version = "=0.3.55", features = ["parsing", "formatting"] }
tracing = "=0.1.44"
tracing-subscriber = "=0.3.23"
twilight-gateway = "=0.17.1"
twilight-http = "=0.17.1"
twilight-model = "=0.17.1"
twilight-util = { version = "=0.17.0", features = ["builder"] }
