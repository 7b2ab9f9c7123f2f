[package]
name = "discovery"
version = "0.1.0"
edition = "2021"
publish = false

[dependencies]
sha1 = "0.10"
hmac = "0.12"
aes = "0.8"
ctr = "0.9"
base64 = "0.22"
num-bigint = "0.4"
rand = "0.8"
tokio = { version = "1", features = ["rt", "net", "io-util", "sync", "time"] }
libmdns = "*"
futures-core = "0.3"
