[package]
name = "weylus"
version = "0.1.0"
edition = "2021"
publish = false

[dependencies]
url = "=2.5.8"
percent-encoding = "=2.3.2"
serde = { version = "=1.0.229", features = ["derive"] }
serde_json = "=1.0.154"
toml = "=1.1.8"
clap = { version = "=4.6.7", features = ["derive"] }
dirs = "=7.0.0"
tracing = "=0.1.44"
tracing-subscriber = "=0.3.23"
rand = "=0.10.3"
tokio = { version = "=1.54.1", features = ["rt-multi-thread", "macros", "sync", "net", "fs", "time", "io-util"] }
hyper = { version = "=1.12.0", features = ["server", "http1"] }
hyper-util = { version = "=0.1.21", features = ["tokio"] }
http-body-util = "=0.1.5"
bytes = "=1.12.1"
fastwebsockets = { version = "=0.10.0", features = ["upgrade", "unstable-split"] }
handlebars = "=6.4.4"
pnet_datalink = "*"
