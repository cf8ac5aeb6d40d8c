[package]
name = "quote_link"
version = "0.1.0"
edition = "2021"
publish = false

[dependencies]
prometheus-client = "*"
prost = "*"
tokio = { version = "1", features = ["full"] }
anyhow = "1"
async-trait = "*"
tracing = "*"
chrono = "*"
ring = "*"
quiche = { version = "*", features = ["boringssl-boring-crate"] }
boring = "*"
serde = { version = "1", features = ["derive"] }
serde_yaml = "*"
duration-str = "*"
once_cell = "*"
lazy_static = "*"
axum = "*"
futures = "*"

[dev-dependencies]
deku = "*"
