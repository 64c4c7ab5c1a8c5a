[package]
name = "rust_shorten_url"
version = "0.1.0"
edition = "2021"
publish = false

[dependencies]
url = "=2.5.8"
rand = "=0.8.8"
redis = { version = "=1.7.1", features = ["r2d2"] }
r2d2 = "*"
actix-web = "4"
tokio = { version = "1", features = ["macros", "rt-multi-thread"] }
serde = { version = "1", features = ["derive"] }
serde_json = "1"
serde-aux = "*"
secrecy = { version = "=0.10.3", features = ["serde"] }
config = "*"
