[package]
name = "tank_sim"
version = "0.1.0"
edition = "2021"
publish = false

[dependencies]
rusalka = "*"
