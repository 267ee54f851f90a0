[package]
name = "web_errors"
version = "0.1.0"
edition = "2021"
publish = false

[dependencies]
axum = { version = "*", default-features = false, features = ["json"] }

[dev-dependencies]
futures-executor = "0.3"
