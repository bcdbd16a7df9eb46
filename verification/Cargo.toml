[package]
name = "gemini_gateway"
version = "0.1.0"
edition = "2021"
publish = false

[dependencies]
argh = "0.1"
axum = "0.6"
gmi = "*"
handlebars = "4"
log = "0.4"
pretty_env_logger = "0.4"
serde = { version = "1", features = ["derive"] }
tokio = { version = "1", features = ["macros", "rt-multi-thread"] }
