[package]
name = "catfish"
version = "0.1.0"
edition = "2021"
publish = false

[dependencies]
dirs = "*"
redox_liner = "*"
regex = "*"
signal-hook = "*"
termion = "*"
whoami = "*"
