[package]
name = "proto_serialize"
version = "0.1.0"
edition = "2021"
publish = false

[dependencies]
protobuf = "=1.7.5"
serde = "0.5"
