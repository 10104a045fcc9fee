[package]
name = "linear_collections"
version = "0.1.0"
edition = "2021"
publish = false

[dependencies]
proc-macro2 = "1"
quote = "1"
serde = "1"
syn = { version = "2", features = ["full"] }
