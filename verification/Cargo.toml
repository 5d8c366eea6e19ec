[package]
name = "bubblewarp"
version = "0.1.0"
edition = "2021"
publish = false

[dependencies]
anyhow = "1"
clap = { version = "4", features = ["derive"] }
directories = "5"
nix = { version = "0.27", features = ["mount", "signal", "net", "user"] }
procfs = { version = "0.15", default-features = false }
tracing = "0.1"
tracing-subscriber = { version = "0.3", features = ["env-filter"] }
