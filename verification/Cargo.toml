[package]
name = "wuwa_downloader"
version = "0.1.0"
edition = "2021"
publish = false

[dependencies]
md-5 = "*"
flate2 = "*"
reqwest = { version = "*", default-features = false, features = ["blocking"] }
serde_json = "*"
colored = "*"
ctrlc = "*"
shellexpand = "*"
indicatif = "*"
