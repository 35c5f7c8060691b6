[package]
name = "fsx"
version = "0.1.0"
edition = "2021"
publish = false

[dependencies]
cfg-if = "=1.0.5"
clap = { version = "=4.6.7", features = ["derive"] }
env_logger = "=0.10.2"
libc = "=0.2.191"
log = "=0.4.34"
nix = "=0.26.4"
rand = "=0.8.8"
rand_xorshift = "=0.3.0"
ringbuffer = "=0.12.0"
safemem = "=0.3.3"
serde = { version = "=1.0.229", features = ["derive"] }
serde_derive = "=1.0.229"
toml = "=0.7.8"
