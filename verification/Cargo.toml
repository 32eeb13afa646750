[package]
name = "alpa"
version = "0.1.0"
edition = "2021"
publish = false

[dependencies]
anyhow = "=1.0.104"
arboard = { version = "=3.2.1", default-features = false }
device_query = "=1.1.3"
directories = "=4.0.1"
enigo = "=0.1.3"
flume = "=0.10.14"
rand = "=0.8.8"
serde = { version = "=1.0.229", features = ["derive"] }
serde_json = "=1.0.151"
toml = "=0.7.8"
