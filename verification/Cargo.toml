[package]
name = "jj_gh"
version = "0.1.0"
edition = "2021"
publish = false

[dependencies]
clap = { version = "=4.6.7", features = ["derive"] }
color-eyre = "=0.6.5"
gh-config = "=0.6.0"
octocrab = "=0.47.1"
tokio = { version = "=1.54.1", features = ["io-util", "macros", "process", "rt-multi-thread"] }

[dev-dependencies]
regex = "=1.13.1"
