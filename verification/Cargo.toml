[package]
name = "dmx_udp"
version = "0.1.0"
edition = "2021"
publish = false

[dependencies]
libc = "*"
socket2 = "*"
clap = { version = "*", features = ["derive"] }
nix = { version = "*", features = ["event", "poll", "signal", "time"] }
