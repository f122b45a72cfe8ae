[package]
name = "plotters_wxdragon"
version = "0.1.0"
edition = "2021"
publish = false

[dependencies]
plotters-backend = "0.3"
thiserror = "*"
wxdragon = "0.9"
