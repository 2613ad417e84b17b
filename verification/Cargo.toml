[package]
name = "bubblewrap"
version = "0.1.0"
edition = "2021"
publish = false

[dependencies]
nix = { version = "0.30", features = ["fs", "mount", "process", "sched", "signal", "user"] }
clap = { version = "4", features = ["derive"] }
