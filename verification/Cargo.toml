[package]
name = "crosis"
version = "0.1.0"
edition = "2021"
publish = false

[dependencies]
async-trait = "0.1"
fastrand = "2"
futures-util = { version = "0.3", features = ["sink"] }
prost = "0.12"
reqwest = { version = "0.11", default-features = false, features = ["json", "rustls-tls"] }
serde = { version = "1", features = ["derive"] }
thiserror = "1"
tokio = { version = "1", features = ["macros", "net", "rt-multi-thread", "sync", "time"] }
tokio-tungstenite = { version = "0.20", features = ["rustls-tls-webpki-roots"] }
url = "2"
