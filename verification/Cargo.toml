[package]
name = "user_colors"
version = "0.1.0"
edition = "2021"
publish = false

[dependencies]
anyhow = "1"
csscolorparser = "0.6"
futures = "0.3"
notify = "5"
ron = "0.8"
serde = { version = "1", features = ["derive"] }
xdg = "2.4"
