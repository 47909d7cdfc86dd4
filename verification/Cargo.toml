[package]
name = "lazydb"
version = "0.1.0"
edition = "2021"
publish = false

[dependencies]
serde = { version = "=1.0.229", features = ["derive"] }
serde_json = "=1.0.154"
thiserror = "=2.0.21"
uuid = { version = "=1.29.0", features = ["v4", "serde"] }
chrono = { version = "=0.4.45", default-features = false, features = ["std", "clock"] }
secrecy = "=0.10.3"
sqlx = { version = "=0.8.6", default-features = false, features = ["postgres", "mysql", "runtime-tokio"] }
tiberius = { version = "=0.12.3", default-features = false, features = ["tds73", "rustls", "chrono"] }
tokio = { version = "=1.54.1", features = ["rt", "net", "sync"] }
