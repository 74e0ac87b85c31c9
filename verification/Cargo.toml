[package]
name = "marauder"
version = "0.1.0"
edition = "2021"
publish = false

[dependencies]
crc-any = "=3.1.0"
ringbuffer = "=0.16.0"
rand = "=0.10.3"
anyhow = "=1.0.104"
log = "=0.4.34"
serde = { version = "=1.0.229", features = ["derive"] }
serde-jsonlines = "=0.7.0"
tokio = { version = "=1.54.1", features = ["time", "rt", "sync", "macros"] }
nom = "=5.1.3"
quick-xml = { version = "0.22", features = ["serialize"] }
svg-path-parser = "*"
uuid = { version = "*", features = ["v4"] }
env_logger = "*"
