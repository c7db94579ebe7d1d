[package]
name = "sqnc"
version = "0.1.0"
edition = "2021"

[dependencies]
cpal = "0.15"
midir = "0.10"
