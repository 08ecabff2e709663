[package]
name = "arch_bot_commons"
version = "0.1.0"
edition = "2021"
publish = false

[dependencies]
futures = "=0.3.34"
takecell = "=0.1.1"
tempfile = "=3.27.0"
teloxide = { version = "=0.17.0", default-features = false }
tokio = { version = "=1.53.2", features = ["fs"] }
