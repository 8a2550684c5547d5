[package]
name = "color_picker"
version = "0.1.0"
edition = "2021"
publish = false

[dependencies]
druid = "=0.8.3"
druid-shell = "=0.8.3"
kurbo = "=0.9.5"
piet = "=0.6.2"
nalgebra = "=0.18.1"
rbf-interp = "=0.1.3"
