[package]
name = "iron_cors"
version = "0.1.0"
edition = "2021"
publish = false

[dependencies]
iron = "0.6"
