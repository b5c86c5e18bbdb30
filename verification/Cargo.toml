[package]
name = "yplayer"
version = "0.1.0"
edition = "2021"
publish = false

[dependencies]
fastrand = "2"
md-5 = "0.10"
quick-xml = "0.31"
url = "2"
chrono = "0.4"
dirs = "5"
serde = { version = "1", features = ["derive"] }
serde_json = "1"
toml = "0.8"
thiserror = "1"
reqwest = { version = "0.12", default-features = false, features = ["rustls-tls"] }
tokio = { version = "1", features = ["full"] }
futures = "0.3"
crossterm = { version = "0.28", features = ["event-stream"] }
ratatui = "0.29"
open = "5"
libmpv-sys = "3.1"
