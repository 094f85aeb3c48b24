[package]
name = "gallerica"
version = "0.1.0"
edition = "2021"
publish = false

[dependencies]
rand = "*"
circular-queue = "*"
serde = { version = "*", features = ["derive"] }
serde_json = "*"
toml = "*"
tokio = { version = "*", features = ["full"] }
clap = { version = "*", features = ["derive"] }
anyhow = "*"
async-trait = "*"
directories = "*"
rumqttc = "*"
