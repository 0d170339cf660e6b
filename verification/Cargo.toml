[package]
name = "pretty_error"
version = "0.1.0"
edition = "2021"
publish = false

[dependencies]
colored = "*"
hemtt-config = "*"
hemtt-tokens = "*"
serde = { version = "*", features = ["derive"] }
thiserror = "*"
