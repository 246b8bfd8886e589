[package]
name = "domeneshop_cli"
version = "0.1.0"
edition = "2021"
publish = false

[dependencies]
chrono = "0.4"
clap = { version = "4", features = ["derive"] }
public-ip = "*"
serde = { version = "1", features = ["derive"] }
serde_json = "1"
simple-log = "*"
tokio = { version = "1", features = ["macros", "rt-multi-thread"] }
