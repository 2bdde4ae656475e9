[package]
name = "bus_rpc"
version = "0.1.0"
edition = "2021"
publish = false

[dependencies]
dbus = { version = "*", features = ["vendored"] }
log = "*"
env_logger = "*"
