[package]
name = "glsp_wrap"
version = "0.1.0"
edition = "2021"
publish = false

[dependencies]
smallvec = { version = "=1.16.4", features = ["const_generics", "write"] }
