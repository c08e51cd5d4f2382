[package]
name = "bounded_mpsc"
version = "0.1.0"
edition = "2021"
publish = false

[dependencies]
crossbeam-queue = "0.3"

[dev-dependencies]
futures-test = "0.3"
