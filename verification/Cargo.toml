[package]
name = "temperature_converter"
version = "0.1.9"
edition = "2021"
publish = false

[dependencies]
clap = "2"
