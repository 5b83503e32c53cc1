[package]
name = "geopoint_ewkb"
version = "0.1.0"
edition = "2021"
publish = false

[dependencies]
geo = "*"
diesel = { version = "*", default-features = false, features = ["postgres_backend"] }

[dev-dependencies]
postgis = "*"
