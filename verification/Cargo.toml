[package]
name = "cosmic_ext_weather"
version = "0.1.0"
edition = "2021"
publish = false

[dependencies]
log = "=0.4.34"
open = "=5.4.5"
serde = { version = "1", features = ["derive"] }
