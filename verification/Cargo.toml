[package]
name = "maidsafe_utilities"
version = "0.1.0"
edition = "2021"
publish = false

[dependencies]
rmp = "=0.8.15"
rmp-serialize = "=0.8.1"
rustc-serialize = "=0.3.25"
