[package]
name = "inputd"
version = "0.1.0"
edition = "2021"
publish = false

[dependencies]
ads1x1x = "0.2"
clap = { version = "4", features = ["derive"] }
embedded-hal = "0.2"
linux-embedded-hal = "0.3"
nb = "1"
nix = { version = "0.26", features = ["signal", "process"] }
rppal = "0.14"
