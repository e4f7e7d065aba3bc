[package]
name = "serial_bridge"
version = "0.1.0"
edition = "2021"
publish = false

[dependencies]
clap = { version = "4", features = ["derive"] }
serial-core = "0.4"
serial-unix = "0.4"
