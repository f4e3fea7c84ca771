[package]
name = "compiler_cranelift"
version = "0.1.0"
edition = "2021"
publish = false

[dependencies]
cranelift-codegen = "=0.86.1"
gimli = "=0.26.2"
rayon = "=1.12.0"
wasmer-compiler = { version = "=3.3.0", features = ["compiler"] }
wasmer-types = "=3.3.0"
