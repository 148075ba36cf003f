[package]
name = "atlas_data_api"
version = "0.1.0"
edition = "2021"
publish = false

[dependencies]
reqwest = { version = "=0.13.5", default-features = false, features = ["blocking"] }
bson = { version = "=3.1.0", features = ["serde"] }
serde_json = "=1.0.151"
