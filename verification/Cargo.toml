[package]
name = "cluster_net"
version = "0.1.0"
edition = "2021"
publish = false

[dependencies]
tokio = { version = "1", features = ["sync", "time", "rt"] }
futures-util = "0.3"
serde = { version = "1", features = ["derive"] }
prost = "0.12"
prost-types = "0.12"
sqlx = { version = "0.7", default-features = false, features = ["mysql"] }
tracing = "0.1"
