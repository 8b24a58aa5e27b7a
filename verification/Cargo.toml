[package]
name = "dbclient"
version = "0.1.0"
edition = "2021"
publish = false

[dependencies]
async-trait = "0.1"
chrono = { version = "0.4", default-features = false, features = ["std"] }
log = "0.4"
serde = { version = "1", features = ["derive"] }
serde_json = "1"
sqlx = { version = "0.8", default-features = false, features = ["runtime-tokio", "postgres", "mysql", "chrono", "json"] }
thiserror = "1"
tokio = { version = "1", features = ["sync", "time", "rt", "macros"] }
