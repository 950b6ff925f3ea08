[package]
name = "oppgave"
version = "0.1.0"
edition = "2021"
publish = false

[dependencies]
libc = "0.2"
redis = { version = "0.23", default-features = false }
rustc-serialize = "0.3"
