[package]
name = "matrix-bridge"
version = "0.1.0"
edition = "2021"
publish = false

[dependencies]
anyhow = "*"
chrono = { version = "*", default-features = false, features = ["alloc"] }
clap = { version = "*", default-features = false, features = ["std", "derive", "help", "usage", "error-context"] }
dirs = "*"
ruma-common = "*"
rmcp = { version = "*", features = ["server", "macros", "transport-io"] }
rpassword = "*"
serde = { version = "*", features = ["derive"] }
serde_json = "*"
thiserror = "*"
tokio = { version = "*", features = ["full"] }
tracing = "*"
tracing-subscriber = { version = "*", default-features = false, features = ["fmt", "env-filter", "std"] }
