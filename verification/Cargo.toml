[package]
name = "borovylo"
version = "0.1.0"
edition = "2021"
publish = false

[dependencies]
slab = "=0.4.12"
futures = "=0.3.34"
fastrand = "=2.5.0"
rand = "=0.8.8"
serde = { version = "=1.0.229", features = ["derive"] }
serde_json = "=1.0.154"
toml = "=0.5.11"
bincode = "=2.0.1"
tokio = { version = "=1.54.1", features = ["rt-multi-thread", "sync", "time", "macros"] }
async-graphql = "=7.2.1"
async-graphql-warp = "7"
warp = "0.3"
hyper = { version = "0.14", features = ["server", "tcp", "http1"] }
listenfd = "1"
log = "=0.4.35"
env_logger = "=0.9.3"
pretty_env_logger = "=0.4.0"
crossbeam-channel = "=0.5.17"
once_cell = "=1.21.4"
stick = "=0.12.4"
walkdir = "=2.5.0"
mime_guess = "=2.0.5"
fs_extra = "=1.3.0"
rexiv2 = "0.10"
csound = "*"
