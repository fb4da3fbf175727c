[package]
name = "fle_context"
version = "0.1.0"
edition = "2021"
publish = false

[dependencies]
bson = "2"
