[package]
name = "clang_ast"
version = "0.1.0"
edition = "2021"
publish = false

[dependencies]
cexpr = "=0.6.0"
clang-sys = { version = "=1.9.1", features = ["runtime", "clang_3_9"] }
