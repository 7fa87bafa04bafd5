[package]
name = "explorer"
version = "0.1.0"
edition = "2021"
publish = false

[dependencies]
rocket = "0.5"
rocket_dyn_templates = { version = "0.2", features = ["tera"] }
either = "1"
colored = "2"
