[package]
name = "codegen_rust"
version = "0.1.0"
edition = "2021"
publish = false

[dependencies]
heck = "*"
prettyplease = "*"
proc-macro2 = "*"
syn = { version = "*", features = ["full"] }
thiserror = "*"
toml = "*"
