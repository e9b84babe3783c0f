[package]
name = "module_lexer"
version = "0.1.0"
edition = "2021"
publish = false

[dependencies]
anyhow = "*"
rayon = "*"
swc_common = "*"
swc_ecmascript = { version = "*", features = ["parser", "visit"] }
