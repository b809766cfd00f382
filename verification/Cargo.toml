[package]
name = "devil_bot"
version = "0.1.0"
edition = "2021"
publish = false

[dependencies]
lambda_http = "*"
log = "0.4"
serde_json = "1"
simple_logger = "*"
tokio = { version = "1", features = ["macros", "rt-multi-thread"] }
