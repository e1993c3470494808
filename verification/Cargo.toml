[package]
name = "luma_forge"
version = "0.1.0"
edition = "2021"
publish = false

[dependencies]
serde = { version = "1", features = ["derive"] }
serde_json = "1"
reqwest = { version = "0.12", default-features = false, features = ["json"] }
tokio = { version = "1", features = ["rt", "macros", "sync"] }
time = { version = "0.3", features = ["formatting"] }
sqlx = { version = "0.8", default-features = false, features = ["sqlite", "runtime-tokio"] }
async-trait = "0.1"
thiserror = "2"
tracing = "0.1"
