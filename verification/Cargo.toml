[package]
name = "hateoas"
version = "0.1.0"
edition = "2021"
publish = false

[dependencies]
http = "*"
serde = { version = "*", features = ["derive"] }
serde_json = "*"
simple_serde = "*"
uuid = { version = "*", features = ["v4", "serde"] }
