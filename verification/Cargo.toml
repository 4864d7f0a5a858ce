[package]
name = "debug_console"
version = "0.1.0"
edition = "2021"
publish = false

[dependencies]
nb = "1"
esp32 = { version = "*", default-features = false }
