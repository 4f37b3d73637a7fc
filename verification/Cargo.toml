[package]
name = "game_of_life"
version = "0.1.0"
edition = "2021"
publish = false

[dependencies]
rand = "0.8"
yew = "0.18"
gloo-timers = "0.2"
instant = "0.1"
web-sys = { version = "0.3", features = ["console"] }
