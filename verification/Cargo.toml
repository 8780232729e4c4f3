[package]
name = "stacked_bar_chart"
version = "0.1.0"
edition = "2021"
publish = false

[dependencies]
clap = { version = "4", features = ["derive", "env"] }
easy-error = "1"
json5 = "0.4"
rand = "0.8"
serde = { version = "1", features = ["derive"] }
svg = "*"
yansi = "0.5"
