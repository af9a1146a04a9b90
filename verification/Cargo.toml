[package]
name = "component_host"
version = "0.1.0"
edition = "2021"
publish = false

[dependencies]
anyhow = "=1.0.104"
wit-component = "=0.261.0"
