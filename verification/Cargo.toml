[package]
name = "letta-server"
version = "2.0.1"
edition = "2021"
publish = false

[dependencies]
letta = "=0.1.2"
serde = { version = "1", features = ["derive"] }
serde_json = "1"
base64 = "=0.22.1"
bytes = "1"
turbomcp = { version = "=3.6.0", features = ["http"] }
tokio = { version = "1", features = ["macros", "rt-multi-thread"] }
tracing = "0.1"
tracing-subscriber = { version = "0.3", features = ["env-filter"] }
reqwest = { version = "0.12", features = ["json"] }
thiserror = "1"
schemars = "1"
