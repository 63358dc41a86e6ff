[package]
name = "vuln_feed"
version = "0.1.0"
edition = "2021"
publish = false

[dependencies]
serde_json = "=1.0.151"
rss = "=1.10.0"
worker = "=0.8.7"
