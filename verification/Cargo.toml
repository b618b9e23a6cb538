[package]
name = "oci_bindings"
version = "0.1.0"
edition = "2021"
publish = false

[dependencies]
oci-client = "*"
napi = { version = "*", features = ["tokio_rt"] }
napi-derive = "*"
