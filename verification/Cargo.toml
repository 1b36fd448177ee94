[package]
name = "tsunami"
version = "0.1.0"
edition = "2021"
publish = false

[dependencies]
failure = "=0.1.8"
ssh2 = "=0.9.6"
tokio = { version = "=1.54.1", features = ["macros", "rt-multi-thread", "time"] }
