[package]
name = "allowlist_sync"
version = "0.1.0"
edition = "2021"
publish = false

[dependencies]
ipnet = "=2.12.2"
regex = "=1.13.1"
roxmltree = "=0.21.1"
clap = { version = "=3.2.25", features = ["cargo"] }
color-eyre = "=0.6.5"
fern = "=0.7.1"
log = "=0.4.34"
tokio = { version = "=1.54.1", features = ["macros", "rt-multi-thread", "signal", "time"] }
notify-rust = "=4.18.2"
query_external_ip = "=0.1.1"
