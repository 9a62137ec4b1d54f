[package]
name = "odyssey"
version = "0.1.0"
edition = "2021"
publish = false

[dependencies]
async-trait = "0.1"
clap = { version = "4", features = ["derive"] }
config = { version = "=0.13.4", default-features = false, features = ["ini", "yaml"] }
framebuffer = "0.3"
glob = "0.3"
itertools = "=0.11.0"
log = "0.4"
png = "=0.17.16"
poem = "3"
poem-openapi = { version = "5", features = ["swagger-ui"] }
regex = "=1.13.1"
serde = { version = "1", features = ["derive"] }
serde_yaml = "0.9"
serialport = { version = "4", default-features = false }
simple_logger = "4"
tokio = { version = "1", features = ["full"] }
tokio-serial = "5.4"
tokio-util = "0.7"
zip = { version = "=0.6.6", default-features = false, features = ["deflate"] }
