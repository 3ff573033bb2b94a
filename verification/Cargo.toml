[package]
name = "sl"
version = "0.1.0"
edition = "2021"
publish = false

[dependencies]
clap = "2"
libc = "0.2"
ncurses = "5"
nix = "0.26"
