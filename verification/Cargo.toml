[package]
name = "amqp_rs"
version = "0.1.0"
edition = "2021"
publish = false

[dependencies]
rustls-pemfile = "*"
rustls = { version = "*", default-features = false, features = ["ring", "std", "tls12"] }
tokio-rustls = { version = "*", default-features = false, features = ["ring", "tls12"] }
rustls-webpki = { version = "*", default-features = false, features = ["ring", "std"] }
webpki-roots = "*"
