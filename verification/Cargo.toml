[package]
name = "cs2_shocker"
version = "0.1.0"
edition = "2021"
publish = false

[dependencies]
rand = "0.8"
axum = "*"
log = "*"
reqwest = { version = "*", default-features = false, features = ["json"] }
serde = { version = "*", features = ["derive"] }
serde_json = "*"
simple_logger = "*"
time = { version = "*", features = ["formatting", "macros"] }
tokio = { version = "*", features = ["macros", "net", "rt-multi-thread", "sync"] }
