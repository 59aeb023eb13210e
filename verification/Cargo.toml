[package]
name = "askii"
version = "0.1.0"
edition = "2021"
publish = false

[dependencies]
line_drawing = "0.8"
pathfinding = "2"
num-traits = "0.2"
cursive = { version = "0.15", default-features = false, features = ["crossterm-backend"] }
structopt = "0.3"
lazy_static = "1"
parking_lot = "0.11"
log = "0.4"
clipboard = "0.5"
enumset = "1"
smallvec = "1"
unicode-segmentation = "1"
unicode-width = "0.1"
