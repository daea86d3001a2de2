[package]
name = "check_if_email_exists"
version = "0.1.0"
edition = "2021"
publish = false

[dependencies]
async-smtp = "=0.6.0"
serde = { version = "=1.0.229", features = ["derive"] }

[dev-dependencies]
async-native-tls = { version = "=0.4.0", default-features = false, features = ["runtime-tokio"] }
serde_json = "=1.0.154"
