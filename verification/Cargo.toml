[package]
name = "pipeline-manager"
version = "0.1.0"
edition = "2021"
publish = false

[dependencies]
uuid = "=1.29.0"
actix-web = { version = "=4.18.1", default-features = false, features = ["macros"] }
serde = { version = "=1.0.229", features = ["derive"] }
serde_json = "=1.0.154"
log = "=0.4.35"
anyhow = "=1.0.104"
async-trait = "=0.1.92"
utoipa = "=4.2.3"
