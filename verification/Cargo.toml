[package]
name = "primality"
version = "0.1.0"
edition = "2021"
publish = false

[dependencies]
tera = { version = "1", default-features = false }
lettre = { version = "0.11", default-features = false, features = ["builder"] }
