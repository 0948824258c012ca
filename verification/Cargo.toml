[package]
name = "gitlab_tokens"
version = "0.1.0"
edition = "2021"
publish = false

[dependencies]
axum = "*"
chrono = "*"
dotenv = "*"
parse_link_header = "*"
reqwest = { version = "*", default-features = false, features = ["rustls-tls"] }
serde = { version = "*", features = ["derive"] }
serde_json = "*"
serde_repr = "*"
tokio = { version = "*", features = ["macros", "net", "rt", "signal", "sync", "time"] }
tracing = "*"
tracing-subscriber = { version = "*", features = ["env-filter"] }

[dev-dependencies]
regex = "*"
