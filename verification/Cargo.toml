[package]
name = "disassembler"
version = "0.1.0"
edition = "2021"
publish = false

[dependencies]
rand = "=0.7.3"
anyhow = "=1.0.104"
serde = "1"
serde_derive = "=1.0.229"
termcolor = "=1.4.1"
crossbeam = "=0.7.3"
http = "=0.2.12"
tokio = { version = "=0.2.25", features = ["full"] }
