[package]
name = "open_feature_model"
version = "0.1.0"
edition = "2021"
publish = false

[dependencies]
typed-builder = "*"
