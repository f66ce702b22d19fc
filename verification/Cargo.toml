[package]
name = "fuser"
version = "0.1.0"
edition = "2021"
publish = false

[dependencies]
async-trait = "0.1"
bimap = "0.6"
dashmap = "6"
lazy_static = "1"
libc = "0.2"
log = "0.4"
nix = { version = "0.30", features = ["dir", "fs", "ioctl", "mount", "poll", "process", "resource", "signal", "socket", "uio", "user", "feature"] }
page_size = "0.6"
regex = "1"
serde = { version = "1", features = ["derive"] }
smallvec = "1"
tokio = { version = "1", features = ["rt", "rt-multi-thread", "sync", "net", "macros", "fs", "io-util", "time"] }
