[package]
name = "session_gateway"
version = "0.1.0"
edition = "2021"
publish = false

[dependencies]
anyhow = "1"
aqueue = "*"
async-trait = "0.1"
chrono = "0.4"
futures = "0.3"
log = "0.4"
netxclient = "*"
netxserver = "*"
once_cell = "1"
serde = { version = "1", features = ["derive"] }
serde_json = "1"
serde_type_name = "*"
tokio = { version = "1", features = ["rt", "rt-multi-thread", "macros", "time", "sync"] }
toml = "*"
uuid = { version = "1", features = ["v4"] }
