[package]
name = "kicad_cli"
version = "0.1.0"
edition = "2021"
publish = false

[dependencies]
autopilot = "*"
log = "0.4"
pretty_env_logger = "*"
regex = "1"
structopt = "0.3"
xdotool = "*"
