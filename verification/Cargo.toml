[package]
name = "rusty_repl"
version = "0.1.0"
edition = "2021"
publish = false

[dependencies]
bollard = "0.16"
tokio = { version = "1", features = ["full"] }
futures-util = "0.3"
