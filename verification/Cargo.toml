[package]
name = "wechat_session"
version = "0.1.0"
edition = "2021"
publish = false

[dependencies]
regex = "1"
serde_json = "1"
time = "0.1"
hyper = "0.10"
hyper-native-tls = "*"
