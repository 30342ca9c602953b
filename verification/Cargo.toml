[package]
name = "cashu_client"
version = "0.1.0"
edition = "2021"
publish = false

[dependencies]
async-trait = "0.1"
cashu = "*"
gloo = { version = "*", default-features = false, features = ["net"] }
serde = { version = "1", features = ["derive"] }
serde_json = "1"
url = "2"
