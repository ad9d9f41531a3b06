[package]
name = "theme_colors"
version = "0.1.0"
edition = "2021"
publish = false

[dependencies]
iced_style = "0.12"
iced_core = { version = "0.12", features = ["palette"] }
palette = "0.7"
