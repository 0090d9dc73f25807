[package]
name = "unify_attribute_poll"
version = "0.1.0"
edition = "2021"
publish = false

[dependencies]
futures = "0.3"
futures-concurrency = "*"
