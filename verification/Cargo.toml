[package]
name = "calendula"
version = "0.1.0"
edition = "2021"
publish = false

[dependencies]
anyhow = "=1.0.104"
chrono = "=0.4.45"
clap = { version = "=4.6.7", features = ["derive"] }
comfy-table = "=8.0.1"
crossterm = { version = "=0.29.0", features = ["serde"] }
http = "=1.5.0"
io-calendar = { version = "=0.0.1", features = ["caldav", "vdir"] }
io-fs = { version = "=0.0.1", features = ["std"] }
io-stream = { version = "=0.0.2", features = ["std"] }
log = "=0.4.34"
pimalaya-toolbox = { version = "=0.0.4", features = ["config", "stream", "terminal", "prompt"] }
serde = { version = "=1.0.229", features = ["derive"] }
