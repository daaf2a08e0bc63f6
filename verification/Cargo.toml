[package]
name = "volt_resolver"
version = "0.1.0"
edition = "2021"
publish = false

[dependencies]
base64 = "0.13"
semver_rs = "0.2"
serde_json = "1"
ssri = "7"
anyhow = "1"
async-trait = "0.1"
colored = "2"
futures = "0.3"
isahc = "1"
miette = "*"
tokio = { version = "1", features = ["macros", "rt-multi-thread", "sync", "time"] }
