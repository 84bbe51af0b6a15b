[package]
name = "subvt"
version = "0.1.0"
edition = "2021"
publish = false

[dependencies]
parity-scale-codec = "3"
hex = "0.4"
num-format = "0.4"
scale-bits = "0.4"
scale-info = "2"
frame-metadata = "15"
sp-core = "21"
serde = { version = "1", features = ["derive"] }
serde_json = "1"
anyhow = "1"
thiserror = "1"
chrono = "0.4"
log = "0.4"
rustc-hash = "1"
lazy_static = "1"
once_cell = "1"
tokio = { version = "1", features = ["macros", "rt-multi-thread"] }
redis = "0.23"
bus = "2"
jsonrpsee = { version = "0.15", features = ["ws-server"] }
futures-util = "0.3"
async-trait = "0.1"
