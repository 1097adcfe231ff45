[package]
name = "tinyd"
version = "0.1.0"
edition = "2021"
publish = false

[dependencies]
clap = { version = "=4.6.7", features = ["derive"] }
nvme-cli-sys = "=1.0.0"
serde_json = "=1.0.154"
sysinfo = "=0.39.6"
tokio = { version = "=1.54.1", features = ["macros", "net", "rt-multi-thread", "time"] }
