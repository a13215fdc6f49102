[package]
name = "autodeploy"
version = "0.1.0"
edition = "2021"
publish = false

[dependencies]
anyhow = "*"
async-channel = "*"
bytes = "*"
git2 = { version = "=0.21.0", default-features = false }
hex = "=0.4.3"
ring = "=0.17.14"
serde = { version = "*", features = ["derive"] }
serde_json = "=1.0.151"
structopt = "*"
tokio = { version = "*", features = ["full"] }
toml = "=1.1.7"
tracing = "*"
tracing-subscriber = { version = "*", features = ["env-filter"] }
uuid = { version = "*", features = ["v4"] }
warp = { version = "=0.4.3", features = ["server"] }
