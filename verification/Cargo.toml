[package]
name = "physics"
version = "0.1.0"
edition = "2021"
publish = false

[dependencies]
arrayvec = "0.7"
clap = { version = "=4.6.7", features = ["derive"] }
console = "=0.15.11"
dialoguer = "=0.11.0"
env_logger = { version = "=0.10.2", default-features = false }
image = { version = "=0.24.9", default-features = false, features = ["png"] }
log = "=0.4.35"
quick-xml = { version = "=0.31.0", features = ["serialize"] }
ron = "=0.8.1"
serde = { version = "=1.0.229", features = ["derive"] }
zip = { version = "=0.6.6", default-features = false, features = ["deflate"] }
