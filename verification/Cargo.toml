[package]
name = "fritzctl"
version = "0.1.0"
edition = "2021"
publish = false

[dependencies]
bollard = "0.18"
clap = { version = "4", features = ["derive"] }
form_urlencoded = "1"
md-5 = "0.10"
reqwest = { version = "0.12", default-features = false, features = ["blocking"] }
serde = { version = "1", features = ["derive"] }
serde_json = "1"
serde-xml-rs = "0.6"
tokio = { version = "1", features = ["rt", "net", "time"] }
