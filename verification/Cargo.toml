[package]
name = "team_heist_tactics"
version = "0.1.0"
edition = "2021"
publish = false

[dependencies]
rand = "*"
