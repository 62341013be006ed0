[package]
name = "ffi_rs"
version = "0.1.0"
edition = "2021"
publish = false

[dependencies]
napi = { version = "2", default-features = false, features = ["napi6"] }
napi-derive = "2"
libffi = "3"
libffi-sys = "2"
dlopen = "0.1"
libc = "0.2"
indexmap = "2"
widestring = "1"
serde = { version = "1", features = ["derive"] }
serde_json = "1"
