[package]
name = "qstf"
version = "0.1.0"
edition = "2021"
publish = false

[dependencies]
regex = "=1.13.1"
tonic = "=0.10.2"
tokio = { version = "=1.54.1", features = ["time", "macros", "rt-multi-thread", "sync"] }
clap = { version = "=4.6.7", features = ["derive"] }
iced = { version = "=0.10.0", default-features = false, features = ["tokio"] }
iced_futures = "=0.7.0"
