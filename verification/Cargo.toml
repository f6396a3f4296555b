[package]
name = "logic_canvas"
version = "0.1.0"
edition = "2021"
publish = false

[dependencies]
druid = { version = "=0.7.0", features = ["svg"] }
