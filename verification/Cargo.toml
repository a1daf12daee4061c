[package]
name = "markdown_mailer"
version = "0.1.0"
edition = "2021"
publish = false

[dependencies]
lettre = "=0.11.23"
pulldown-cmark = "=0.12.2"
axum = "=0.7.9"
tokio = { version = "=1.54.1", features = ["rt-multi-thread", "macros", "net"] }
reqwest = "=0.12.28"
serde = { version = "=1.0.229", features = ["derive"] }
serde_json = "=1.0.154"
