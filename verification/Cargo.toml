[package]
name = "sqlx_config"
version = "0.1.0"
edition = "2021"
publish = false

[dependencies]
toml = "0.8"
once_cell = "1"
