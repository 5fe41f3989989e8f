[package]
name = "geo_nodes"
version = "0.1.0"
edition = "2021"
publish = false

[dependencies]
polars = { version = "0.35", default-features = false }
three-d-asset = "0.4"
tri-mesh = "0.6"
