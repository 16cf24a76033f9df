[package]
name = "suidsnoop"
version = "0.1.0"
edition = "2021"
publish = false

[dependencies]
anyhow = "*"
aya = { version = "*", features = ["async_tokio"] }
bytes = "*"
chrono = "*"
groups = "*"
passwd = "*"
structopt = "*"
tokio = { version = "1", features = ["macros", "rt-multi-thread", "signal"] }
