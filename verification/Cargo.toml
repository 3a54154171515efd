[package]
name = "binchotan_filters"
version = "0.1.0"
edition = "2021"
publish = false

[dependencies]
mlua = { version = "*", features = ["lua54", "vendored"] }
toml = "*"
tracing = "*"
