[package]
name = "windy_pws"
version = "0.1.0"
edition = "2021"
publish = false

[dependencies]
reqwest = { version = "=0.13.5", default-features = false, features = ["blocking", "native-tls"] }
chrono = "=0.4.45"

[dev-dependencies]
serde_json = "=1.0.151"
