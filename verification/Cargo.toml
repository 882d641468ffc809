[package]
name = "overlay_core"
version = "0.1.0"
edition = "2021"
publish = false

[dependencies]
pulldown-cmark = "*"
isolang = "*"
urlencoding = "*"
serde_json = "*"
serde = { version = "*", features = ["derive"] }
lazy_static = "*"
