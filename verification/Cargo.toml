[package]
name = "partitioning"
version = "0.1.0"
edition = "2021"
publish = false

[dependencies]
gpt = "=4.1.0"
kdl = "=6.7.1"
log = "=0.4.35"
thiserror = "=2.0.21"
nix = { version = "=0.29.0", default-features = false }
linux-raw-sys = { version = "=0.12.1", default-features = false, features = ["ioctl", "std"] }
uuid = { version = "=1.29.0", features = ["v4"] }
