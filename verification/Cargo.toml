[package]
name = "file_age_tracker"
version = "0.1.0"
edition = "2021"
publish = false

[dependencies]
clap = "=2.34.0"
prettytable-rs = { version = "=0.10.0", default-features = false }
timeago = { version = "=0.6.1", default-features = false }
walkdir = "=2.5.0"

[dev-dependencies]
regex = "=1.13.1"
