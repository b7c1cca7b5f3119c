[package]
name = "ws_load_test"
version = "0.1.0"
edition = "2021"
publish = false

[dependencies]
rand = { version = "=0.8.8", features = ["small_rng"] }
anyhow = "=1.0.104"
aquatic_ws_protocol = "=0.9.0"
async-tungstenite = "=0.25.1"
futures = "=0.3.34"
futures-rustls = "=0.26.0"
glommio = "=0.9.0"
log = "=0.4.34"
rustls = "=0.23.45"
tungstenite = "=0.21.0"
