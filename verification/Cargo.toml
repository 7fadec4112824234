[package]
name = "cbm_plotter"
version = "0.1.0"
edition = "2021"
publish = false

[dependencies]
clap = { version = "4", features = ["derive"] }
g-code = "*"
roxmltree = "*"
svg2gcode = "*"
svgtypes = "*"
