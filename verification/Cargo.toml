[package]
name = "rel_ptr"
version = "0.1.0"
edition = "2021"
publish = false

[dependencies]
ptr_meta = { version = "0.1", default-features = false }
