[package]
name = "bnb_sim"
version = "0.1.0"
edition = "2021"
publish = false

[dependencies]
actix-rt = "=2.15.0"
actix-web = { version = "=4.18.1", default-features = false, features = ["macros", "compress-gzip"] }
anyhow = "=1.0.104"
env_logger = "=0.11.11"
r2d2 = "=0.8.10"
r2d2_sqlite = "=0.25.0"
rusqlite = { version = "=0.32.1", features = ["bundled", "functions"] }
serde = { version = "=1.0.229", features = ["derive"] }
serde_json = "=1.0.154"
sqlite-vec = "=0.1.9"
tokio = { version = "=1.54.1", features = ["rt"] }
utoipa = { version = "=4.2.3", features = ["actix_extras"] }
utoipa-swagger-ui = { version = "=6.0.0", features = ["actix-web"] }
zerocopy = "=0.7.35"
