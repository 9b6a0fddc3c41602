[package]
name = "layout_evaluation"
version = "0.1.0"
edition = "2021"
publish = false

[dependencies]
priority-queue = "*"
serde = { version = "*", features = ["derive"] }
colored = "*"
