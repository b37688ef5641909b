[package]
name = "git_remote_open"
version = "0.1.0"
edition = "2021"
publish = false

[dependencies]
clap = "*"
open = "*"
