[package]
name = "sm83_core"
version = "0.1.0"
edition = "2021"
publish = false

[dependencies]
strum = "0.26"
strum_macros = "0.26"
