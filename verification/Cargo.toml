[package]
name = "rusty_screeps"
version = "0.1.0"
edition = "2021"
publish = false

[dependencies]
screeps-game-api = "0.9"
log = "0.4"
