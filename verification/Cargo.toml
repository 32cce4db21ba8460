[package]
name = "static_http_server"
version = "0.1.0"
edition = "2021"
publish = false

[dependencies]
ansi_term = "*"
chrono = "*"
chrono-tz = "*"
clap = { version = "*", features = ["derive"] }
env_logger = "*"
libc = "*"
log = "*"
threadpool = "*"
