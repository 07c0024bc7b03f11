[package]
name = "easy_svg"
version = "0.1.0"
edition = "2021"
publish = false

[dependencies]
serde = { version = "*", features = ["derive"] }
serde_yaml = "*"
syn = { version = "*", features = ["full"] }
prettyplease = "*"
