[package]
name = "game_core_marketplace"
version = "0.1.0"
edition = "2021"
publish = false

[dependencies]
anchor-lang = "*"
mpl-core = "*"
