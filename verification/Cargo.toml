[package]
name = "gameserver"
version = "0.1.0"
edition = "2021"
publish = false

[dependencies]
legion = "=0.2.4"
serde = "=1.0.229"
serde_yaml = "=0.8.26"
thiserror = "=1.0.69"
tokio = { version = "=1.54.1", features = ["net", "rt", "sync"] }
tracing = "=0.1.44"
tracing-futures = "=0.2.5"
