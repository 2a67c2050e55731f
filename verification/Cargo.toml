[package]
name = "vec_queues"
version = "0.1.0"
edition = "2021"
publish = false

[dev-dependencies]
itertools = "0.12"
rand = "0.8"
