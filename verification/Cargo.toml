[package]
name = "mortimeriot"
version = "0.1.0"
edition = "2021"
publish = false

[dependencies]
subtle = "*"
time = { version = "*", features = ["parsing", "formatting"] }
serde = { version = "*", features = ["derive"] }
serde_json = "*"
axum = "*"
clap = { version = "*", features = ["derive", "env"] }
reqwest = { version = "*", default-features = false, features = ["json"] }
sqlx = { version = "*", default-features = false, features = ["runtime-tokio", "sqlite"] }
thiserror = "*"
tokio = { version = "*", features = ["macros", "rt-multi-thread", "net", "signal"] }
toml = "*"
tracing = "*"
tracing-subscriber = "*"
