[package]
name = "wayshot_helper"
version = "0.1.0"
edition = "2021"
publish = false

[dependencies]
chrono = "0.4"
dirs = "*"
notify-rust = "4"
structopt = "0.3"
swayipc = "2"
wl-clipboard-rs = "*"
