[package]
name = "compaudit_fix"
version = "0.1.0"
edition = "2021"
publish = false

[dependencies]
users = "*"
clap = "*"
