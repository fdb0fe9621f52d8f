[package]
name = "twoliter"
version = "0.1.0"
edition = "2021"
publish = false

[dependencies]
anyhow = "*"
async-trait = "*"
ctrlc = "*"
filetime = "*"
log = "*"
semver = "*"
serde = { version = "*", features = ["derive"] }
serde_json = "*"
sha2 = "*"
tar = "*"
tempfile = "*"
tokio = { version = "*", features = ["macros", "rt-multi-thread", "process", "fs", "io-util"] }
uuid = { version = "*", features = ["v4"] }
which = "*"
