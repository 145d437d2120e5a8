[package]
name = "sdf_sonar"
version = "0.1.0"
edition = "2021"
publish = false

[dependencies]
float-cmp = "=0.10.0"
geojson = "=1.0.0"
glob = "=0.3.4"

[dev-dependencies]
nom = "7"
