[package]
name = "neo"
version = "0.1.0"
edition = "2021"
publish = false

[dependencies]
heapless = "*"
serde = { version = "*", features = ["derive"] }
serde-xml-rs = "*"
anyhow = "*"
clap = { version = "*", features = ["derive"] }
proc-macro2 = "*"
quote = "*"
syn = "*"
prettyplease = "*"
