[package]
name = "sf_api"
version = "0.1.0"
edition = "2021"
publish = false

[dependencies]
aho-corasick = "=1.1.5"
base64 = "=0.22.1"
chrono = { version = "=0.4.45", default-features = false, features = ["clock", "std"] }
fastrand = "=2.5.0"
num-bigint = "0.4"
sha1 = "=0.10.7"
