[package]
name = "fuckrun"
version = "0.1.0"
edition = "2021"
publish = false

[dependencies]
anyhow = "*"
chrono = "*"
clap = { version = "*", features = ["derive"] }
libc = "*"
log = "*"
log4rs = "*"
nix = { version = "*", features = ["signal", "process", "fs"] }
prettytable-rs = "*"
reqwest = { version = "*", default-features = false }
serde = { version = "*", features = ["derive"] }
serde_json = "*"
serde_yaml = "*"
tokio = { version = "*", features = ["macros", "rt-multi-thread", "process", "io-util", "time", "signal", "sync", "fs"] }
which = "*"
