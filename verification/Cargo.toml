[package]
name = "market_view"
version = "0.1.0"
edition = "2021"
publish = false

[dependencies]
gtk = "0.15"
plotters-cairo = "0.3"
