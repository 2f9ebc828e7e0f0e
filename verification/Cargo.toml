[package]
name = "geo_json_multiblock_merger"
version = "0.1.0"
edition = "2021"
publish = false

[dependencies]
anyhow = "*"
geojson = "*"
inquire = "*"
serde_json = "*"
