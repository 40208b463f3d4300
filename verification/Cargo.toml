[package]
name = "console_core"
version = "0.1.0"
edition = "2021"
publish = false

[dependencies]
tm4c123x = "0.9"
cortex-m-rt = "0.6"
panic-halt = "0.2"
