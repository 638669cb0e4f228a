[package]
name = "neilplot"
version = "0.1.0"
edition = "2021"
publish = false

[dependencies]
polars = { version = "*", default-features = false, features = ["dtype-date", "dtype-duration", "fmt"] }
kurbo = "*"
peniko = "*"
color = "*"
vello = "*"
pollster = "*"
image = { version = "*", default-features = false, features = ["png"] }
