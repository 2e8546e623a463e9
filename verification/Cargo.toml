[package]
name = "game_session"
version = "0.1.0"
edition = "2021"
publish = false

[dependencies]
gstd = "=2.0.0"
gmeta = "=1.7.1"
