[package]
name = "sony_anc"
version = "0.1.0"
edition = "2021"
publish = false

[dependencies]
anyhow = "=1.0.104"
bluer = { version = "=0.17.4", features = ["bluetoothd", "rfcomm"] }
clap = { version = "=4.6.7", features = ["derive"] }
futures = "=0.3.34"
serde = { version = "=1.0.229", features = ["derive"] }
serde_json = "=1.0.154"
thiserror = "=2.0.21"
tokio = { version = "=1.54.1", features = ["full"] }
