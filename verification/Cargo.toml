[package]
name = "typed_pubsub"
version = "0.1.0"
edition = "2021"
publish = false

[dependencies]
prost = "*"
zmq = "*"
