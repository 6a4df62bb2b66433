[package]
name = "cured"
version = "0.1.0"
edition = "2021"
publish = false

[dependencies]
thiserror = "2"
tokio = { version = "1", features = ["macros", "rt-multi-thread", "time", "net", "io-util"] }
