[package]
name = "remo_api"
version = "0.1.0"
edition = "2021"
publish = false

[dependencies]
chrono = "=0.4.45"
embedded-io = "=0.3.1"
fuga-json-seq-parser = "=0.2.0"
uuid = "=1.27.0"
