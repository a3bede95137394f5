[package]
name = "bridgeburner"
version = "0.1.0"
edition = "2021"
publish = false

[dependencies]
http = "0.2"
hyper = { version = "=1.0.0-rc.3", features = ["full"] }
http-body-util = "=0.1.0-rc.2"
openssl = "0.10"
tokio = { version = "1", features = ["full"] }
tokio-openssl = "0.6"
eframe = { version = "*", default-features = false, features = ["glow", "x11", "default_fonts"] }
egui_extras = "*"
