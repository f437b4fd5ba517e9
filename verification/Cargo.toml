[package]
name = "grammers-dialogs"
version = "0.1.0"
edition = "2021"
publish = false

[dependencies]
grammers-mtsender = "=0.10.0"
grammers-tl-types = "=0.2.0"
proc-macro2 = "=1.0.107"
quote = "=1.0.47"
syn = { version = "=1.0.109", features = ["full"] }
