[package]
name = "flow_examples"
version = "0.1.0"
edition = "2021"
publish = false

[dependencies]
async-std = "1"
async-trait = "0.1"
opencv = "0.88"
rand = "0.8"
serde_json = "1"
