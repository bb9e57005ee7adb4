[package]
name = "hpx"
version = "0.1.0"
edition = "2021"
publish = false

[dependencies]
serde_json = "*"
anyhow = "*"
clap = { version = "*", features = ["derive"] }
crossterm = "*"
home = "*"
libbpf-rs = "*"
mlua = { version = "*", features = ["lua54", "vendored", "serialize", "async"] }
pnet = "*"
ratatui = "*"
rpassword = "*"
serde = { version = "*", features = ["derive"] }
ssh2 = "*"
sudo = "*"
tokio = { version = "*", features = ["macros", "rt-multi-thread", "signal"] }
toml = "*"
