[package]
name = "basic_http_server"
version = "0.1.0"
edition = "2021"
publish = false

[dependencies]
clap = "2.34"
futures = "0.3"
handlebars = "*"
http = "0.2"
hyper = { version = "0.14", features = ["server", "http1", "tcp", "runtime"] }
mime = "0.3"
tokio = { version = "1", features = ["fs", "io-util", "rt-multi-thread", "net"] }
