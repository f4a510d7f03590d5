[package]
name = "vrrb_cli"
version = "0.1.0"
edition = "2021"
publish = false

[dependencies]
ritelinked = "*"
crossterm = "*"
tui = "*"
clipboard = "*"
tokio = { version = "*", features = ["full"] }
async-std = { version = "*", features = ["attributes"] }
rand = "*"
log = "*"
simplelog = "*"
public-ip = "*"
unicode-width = "*"
strum_macros = "*"
