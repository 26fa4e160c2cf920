[package]
name = "iq_functions"
version = "0.1.0"
edition = "2021"
publish = false

[dependencies]
base64 = "=0.22.1"
axum = "=0.6.20"
tokio = { version = "1", features = ["macros", "rt-multi-thread"] }
serde = { version = "1", features = ["derive"] }
http = "0.2"
tower = "0.4"
tower-http = { version = "0.4", features = ["cors"] }
simple_logger = "*"
futuresdr = "=0.8.0"
hound = "3"
num-complex = "0.4"
