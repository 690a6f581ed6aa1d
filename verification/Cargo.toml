[package]
name = "ruswords"
version = "0.1.0"
edition = "2021"
publish = false

[dependencies]
chrono = "*"
select = "*"
xvii = "*"
reqwest = { version = "*", default-features = false, features = ["blocking", "rustls-tls"] }
