[package]
name = "sprite_sheet"
version = "0.1.0"
edition = "2021"
publish = false

[dependencies]
piston_window = "*"
piston2d-sprite = "*"
piston-ai_behavior = "*"
find_folder = "*"
