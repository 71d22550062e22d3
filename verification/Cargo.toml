[package]
name = "rat_widget"
version = "0.1.0"
edition = "2021"
publish = false

[dependencies]
chrono = { version = "=0.4.45", default-features = false, features = ["std", "clock"] }
unicode-display-width = "=0.3.0"
unicode-segmentation = "=1.13.3"
ratatui-core = "=0.1.2"
crossterm = "=0.29.0"
