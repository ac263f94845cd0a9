[package]
name = "wasmi_translator"
version = "0.1.0"
edition = "2021"
publish = false

[dependencies]
wasmi_core = "0.13.0"
wasmparser = "0.100.0"
