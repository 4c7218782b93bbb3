[package]
name = "cairn_server"
version = "0.1.0"
edition = "2021"
publish = false

[dependencies]
sha2 = "=0.10.9"
subtle = "=2.6.1"
getrandom = "=0.3.4"
serde = { version = "=1.0.229", features = ["derive"] }
serde_json = "=1.0.154"
thiserror = "=2.0.21"
tokio = { version = "=1.54.1", features = ["rt-multi-thread", "macros", "net", "sync", "time", "io-util", "process"] }
rustls = { version = "=0.23.46", default-features = false, features = ["std"] }
rustls-pemfile = "=2.2.0"
rcgen = { version = "=0.13.2", features = ["x509-parser"] }
x509-parser = "=0.16.0"
time = "=0.3.55"
