[package]
name = "hackcat"
version = "0.1.0"
edition = "2021"
publish = false

[dependencies]
nfd = "*"
olc_pixel_game_engine = "*"
