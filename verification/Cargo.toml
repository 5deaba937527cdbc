[package]
name = "verge_config"
version = "0.1.0"
edition = "2021"
publish = false

[dependencies]
aes-gcm = "0.10"
base64 = "0.22"
getrandom = "0.3"
nanoid = "0.4"
percent-encoding = "2"
regex = "1"
governor = "*"
serde = { version = "1", features = ["derive"] }
serde_json = "1"
serde_yaml_ng = "*"
log = "0.4"
flexi_logger = "*"
dirs-next = "2"
anyhow = "1"
sysinfo = "*"
