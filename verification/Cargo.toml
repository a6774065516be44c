[package]
name = "definition_downloader"
version = "0.1.0"
edition = "2021"
publish = false

[dependencies]
cooplan-definitions-lib = "*"
cooplan-definitions-io-lib = "*"
cooplan-definition-git-downloader = "*"
serde = { version = "*", features = ["derive"] }
serde_json = "*"
git2 = { version = "*", default-features = false }
lapin = { version = "*", default-features = false }
log = "*"
simple_logger = "*"
tokio = { version = "*", features = ["rt-multi-thread", "macros", "sync", "time"] }
tokio-executor-trait = "*"
tokio-reactor-trait = "*"
