[package]
name = "reactive_inputs"
version = "0.1.0"
edition = "2021"
publish = false

[dependencies]
csscolorparser = "*"
validator = "*"
