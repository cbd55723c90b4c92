[package]
name = "cos_store"
version = "0.1.0"
edition = "2021"
publish = false

[dependencies]
opendal = { version = "*", features = ["services-cos"] }
object_store_opendal = "*"
url = "*"
