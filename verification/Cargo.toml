[package]
name = "multicast_querier"
version = "0.1.0"
edition = "2021"
publish = false

[dependencies]
libc = "=0.2.191"
nix = { version = "=0.29.0", features = ["socket", "net", "time", "signal"] }
