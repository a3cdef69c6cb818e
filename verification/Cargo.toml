[package]
name = "sigchat"
version = "0.1.0"
edition = "2021"
publish = false

[dependencies]
url = "2"
log = "0.4"
xous-api-names = "0.9"
xous-api-ticktimer = "0.9"
