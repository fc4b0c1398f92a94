[package]
name = "zeroclaw"
version = "0.1.0"
edition = "2021"
publish = false

[dependencies]
anyhow = "*"
async-trait = "*"
directories = "*"
once_cell = "*"
rustyline = "*"
serde = { version = "*", features = ["derive"] }
serde_json = "*"
tokio = { version = "*", features = ["rt-multi-thread", "fs", "time", "macros"] }
toml = "*"
uuid = { version = "*", features = ["v4"] }
