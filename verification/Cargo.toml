[package]
name = "oom_guard"
version = "0.1.0"
edition = "2021"
publish = false

[dependencies]
anyhow = "1"
clap = { version = "4", features = ["derive"] }
ctrlc = "3"
env_logger = "*"
libc = "0.2"
log = "0.4"
nix = { version = "*", features = ["signal", "process", "mman"] }
procfs = { version = "*", default-features = false }
regex = "1"
