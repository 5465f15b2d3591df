[package]
name = "privsep"
version = "0.1.0"
edition = "2021"
publish = false

[dependencies]
nix = { version = "=0.25.1", features = ["socket", "uio", "fs", "process", "poll", "net"] }
tokio = { version = "=1.53.2", features = ["macros", "rt", "rt-multi-thread", "net", "process", "time", "io-util", "sync"] }
sendfd = { version = "=0.4.5", features = ["tokio"] }
clap = { version = "=4.6.7", features = ["derive"] }
tempfile = "=3.27.0"
