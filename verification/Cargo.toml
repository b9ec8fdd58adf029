[package]
name = "simplelog"
version = "0.1.0"
edition = "2021"
publish = false

[dependencies]
log = "0.4"
termcolor = "1"
time = { version = "0.3", features = ["formatting", "local-offset"] }
ansi_term = "0.12"
paris = "1.5"
