[package]
name = "jear"
version = "0.1.0"
edition = "2021"
publish = false

[dependencies]
bempline = "=0.8.1"
camino = "=1.2.6"
confindent = "=2.2.1"
time = { version = "=0.3.55", features = ["parsing", "formatting"] }
