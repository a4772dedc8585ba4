[package]
name = "bomdoc"
version = "0.1.0"
edition = "2021"
publish = false

[dependencies]
hex = "=0.4.3"
chrono = "=0.4.45"

[dev-dependencies]
apple-bom = "=0.3.0"
