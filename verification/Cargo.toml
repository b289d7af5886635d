[package]
name = "vyoma"
version = "0.1.0"
edition = "2021"
publish = false

[dependencies]
anyhow = "1"
caps = "0.5"
chrono = "0.4"
libc = "0.2"
loopdev = "*"
reqwest = { version = "0.12", default-features = false, features = ["json"] }
serde = { version = "1", features = ["derive"] }
serde_json = "1"
tempfile = "3"
thiserror = "1"
tokio = { version = "1", features = ["macros", "rt", "time"] }
toml = "0.8"
tracing = "0.1"

[dev-dependencies]
rand = "0.8"
