[package]
name = "hyprdrop"
version = "0.1.0"
edition = "2021"
publish = false

[dependencies]
hyprland = "0.3"
log = "0.4"
simple_logger = "4"
structopt = "0.3"
time = { version = "0.3", features = ["macros"] }
