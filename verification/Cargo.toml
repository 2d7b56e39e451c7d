[package]
name = "system_calls"
version = "0.1.0"
edition = "2021"
publish = false

[dependencies]
alloy-eips = "*"
alloy-primitives = "*"
alloy-hardforks = "*"
