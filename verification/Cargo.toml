[package]
name = "web_terminal"
version = "0.1.0"
edition = "2021"
publish = false

[dependencies]
clap = { version = "4", features = ["derive"] }
futures = "0.3"
futures-util = "0.3"
nix = { version = "0.29", features = ["term", "process", "signal"] }
pretty_env_logger = "0.5"
serde = { version = "1", features = ["derive"] }
serde_derive = "1"
tokio = { version = "1", features = ["full"] }
warp = "0.3"
