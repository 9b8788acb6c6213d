[package]
name = "image_service"
version = "0.1.0"
edition = "2021"
publish = false

[dependencies]
futures = "0.3"
hyper = { version = "0.14", features = ["http1", "runtime", "server", "stream", "tcp"] }
hyper-staticfile = "0.9"
rand = "0.5"
tokio = { version = "1", features = ["fs", "io-util", "net", "rt-multi-thread"] }
