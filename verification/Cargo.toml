[package]
name = "chakra"
version = "0.1.0"
edition = "2021"
publish = false

[dependencies]
libp2p = { version = "0.53", default-features = false, features = ["async-std", "dns", "ed25519", "floodsub", "macros", "noise", "ping", "tcp", "websocket", "yamux"] }
async-std = { version = "1", features = ["attributes", "unstable"] }
futures = "0.3"
log = "0.4"
pretty_env_logger = "0.4"
termion = "1.5"
