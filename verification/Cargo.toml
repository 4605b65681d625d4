[package]
name = "joat-repo"
version = "0.1.0"
edition = "2021"
publish = false

[dependencies]
anyhow = "1"
chrono = { version = "0.4", features = ["serde"] }
clap = { version = "4", features = ["derive"] }
color-backtrace = "*"
colored = "*"
fslock = "*"
home = "*"
joatmon = "*"
log = "0.4"
md5 = "*"
path-absolutize = "*"
serde = { version = "1", features = ["derive"] }
serde_yaml = "0.9"
thiserror = "1"
uuid = { version = "1", features = ["v4", "serde"] }

[dev-dependencies]
tempdir = "0.3"
