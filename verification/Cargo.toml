[package]
name = "potabrowser"
version = "0.1.0"
edition = "2021"
publish = false

[dependencies]
base64 = "=0.22.1"
serde_json = "=1.0.154"
serde = { version = "=1.0.229", features = ["derive"] }
tokio = { version = "=1.54.1", features = ["rt-multi-thread", "macros", "net", "io-util", "time"] }
tokio-socks = "=0.5.3"
tungstenite = "=0.30.0"
reqwest = { version = "=0.12.28", default-features = false, features = ["json", "native-tls", "socks"] }
native-tls = "=0.2.18"
tokio-native-tls = "=0.3.1"
hyper = { version = "=0.14.32", features = ["client", "server", "http1", "tcp"] }
hyper-tls = "=0.5.0"
lazy_static = "=1.5.1"
eframe = { version = "=0.37.0", default-features = false, features = ["glow", "x11", "default_fonts"] }
rfd = { version = "=0.16.1", default-features = false, features = ["xdg-portal", "tokio"] }
