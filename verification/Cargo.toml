[package]
name = "helm_api"
version = "0.1.0"
edition = "2021"
publish = false

[dependencies]
base64 = "0.13"
curl = "0.4"
md5 = "0.7"
mktemp = "*"
rustache = "*"
serde = "1"
serde_derive = "1"
serde_json = "1"
serde_yaml = "*"
url = "2"
