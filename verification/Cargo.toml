[package]
name = "clang"
version = "0.1.0"
edition = "2021"
publish = false

[dependencies]
clang-sys = { version = "1", features = ["runtime", "clang_3_7"] }
libc = "0.2"
lazy_static = "1"
