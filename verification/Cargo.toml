[package]
name = "disasm_frontend"
version = "0.1.0"
edition = "2021"
publish = false

[dependencies]
byteorder = "=1.5.0"
register-bits = { version = "=0.2.3", features = ["32bit", "64bit"] }
