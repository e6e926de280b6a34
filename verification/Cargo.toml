[package]
name = "tile_rpg"
version = "0.1.0"
edition = "2021"
publish = false

[dependencies]
bevy = { version = "0.11", default-features = false }
strum = "0.25"
strum_macros = "0.25"
