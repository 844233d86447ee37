[package]
name = "ros2msg_to_rs"
version = "0.1.0"
edition = "2021"
publish = false

[dependencies]
clap = { version = "3", features = ["derive"] }
convert_case = "0.6"
nom = "7"
walkdir = "2"
