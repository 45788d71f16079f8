[package]
name = "file_info"
version = "0.1.0"
edition = "2021"
publish = false

[dependencies]
actix-cors = "*"
actix-web = "*"
chrono = { version = "*", features = ["serde"] }
hex = { version = "*", features = ["serde"] }
meilisearch-sdk = "*"
mimalloc = "*"
serde = { version = "*", features = ["derive"] }
thiserror = "*"
tokio = { version = "*", features = ["macros", "rt-multi-thread"] }
