[package]
name = "ui_elements"
version = "0.1.0"
edition = "2021"
publish = false

[dependencies]
smallvec = "1"
futures = "0.3"
clap = { version = "4", features = ["derive"] }
log = "0.4"
simplelog = "0.12"
