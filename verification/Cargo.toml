[package]
name = "dmd_core"
version = "0.1.0"
edition = "2021"
publish = false

[dependencies]
ringbuffer = "0.8"
libc = "0.2"
lazy_static = "1.4"
env_logger = "0.9"
log = "0.4"
thiserror = "1.0"
