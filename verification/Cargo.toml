[package]
name = "mailcmd"
version = "0.1.0"
edition = "2021"
publish = false

[dependencies]
anyhow = "=1.0.104"
clap = { version = "=4.6.7", default-features = false, features = ["std", "help", "usage", "error-context"] }
dialoguer = "=0.11.0"
email-lib = { version = "=0.27.0", default-features = false, features = ["tokio"] }
log = "=0.4.34"
secret-lib = { version = "=1.0.0", default-features = false, features = ["tokio", "rustls", "command"] }
tokio = { version = "=1.54.1", features = ["rt", "macros"] }
tracing = "=0.1.44"
uuid = { version = "=1.29.0", features = ["v4"] }
