[package]
name = "jet_host"
version = "0.1.0"
edition = "2021"
publish = false

[dependencies]
deno_ast = { version = "*", features = ["transpiling"] }
deno_core = "*"
reqwest = { version = "*", default-features = false, features = ["rustls-tls"] }
tokio = { version = "*", features = ["rt", "fs"] }
