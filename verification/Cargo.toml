[package]
name = "cargo_actions"
version = "0.1.0"
edition = "2021"
publish = false

[dependencies]
md5 = "*"
handlebars = "*"
serde = { version = "*", features = ["derive"] }
serde_json = "*"
clap = { version = "*", features = ["derive"] }
dialoguer = "*"
git2 = { version = "*", default-features = false }
tempfile = "*"
walkdir = "*"
glob = "*"
fs_extra = "*"
reqwest = { version = "*", default-features = false, features = ["json"] }
tokio = { version = "*", features = ["rt", "net", "macros"] }
tokio-util = "*"
axum = "*"
tower-http = { version = "*", features = ["cors"] }
anyhow = "*"
console = "*"
open = "*"
indicatif = "*"
once_cell = "*"
tracing = "*"
