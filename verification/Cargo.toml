[package]
name = "notifyd"
version = "0.1.0"
edition = "2021"
publish = false

[dependencies]
md5 = "*"
which = "*"
tempdir = "*"
clap = { version = "*", features = ["derive"] }
rouille = "*"
serde = { version = "*", features = ["derive"] }
soloud = "*"
local-ip-address = "*"
