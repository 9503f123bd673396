[package]
name = "eng_session"
version = "0.1.0"
edition = "2021"
publish = false

[dependencies]
clap = { version = "=4.6.7", features = ["derive"] }
iced = { version = "0.12", default-features = false, features = ["tokio"] }
prost = "=0.12.6"
ropey = "=1.6.1"
tokio = { version = "=1.54.1", features = ["full"] }
tokio-stream = { version = "=0.1.19", features = ["net"] }
tonic = "=0.11.0"
uuid = { version = "=1.29.0", features = ["v4"] }
