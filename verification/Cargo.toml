[package]
name = "poor_jimmy"
version = "0.1.0"
edition = "2021"
publish = false

[dependencies]
url = "2"
serenity = "0.12"
rustypipe = "*"
tokio = { version = "1", features = ["full"] }
tracing = "0.1"
