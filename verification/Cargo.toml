[package]
name = "specta"
version = "0.1.0"
edition = "2021"
publish = false

[dependencies]
bigdecimal = "0.3"
bson = "2"
bytesize = "1"
chrono = { version = "0.4", default-features = false, features = ["clock"] }
either = "1"
glam = "0.24"
indexmap = "1"
ipnetwork = "0.20"
mac_address = "1"
once_cell = "1"
rust_decimal = "1"
serde_json = "1"
serde_yaml = "0.9"
time = "0.3"
tokio = { version = "1", default-features = false, features = ["sync"] }
toml = "0.7"
uhlc = "0.5"
url = "2"
uuid = "1"
