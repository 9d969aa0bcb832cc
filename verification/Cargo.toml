[package]
name = "rdwm"
version = "0.1.0"
edition = "2021"
publish = false

[dependencies]
x11 = { version = "2", features = ["xlib"] }
libc = "0.2"
log = "0.4"
env_logger = "0.7"
lazy_static = "1"
bitflags = "1"
serde = { version = "1", features = ["derive"] }
toml = "0.5"

[dev-dependencies]
serde_test = "1"
