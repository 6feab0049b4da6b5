[package]
name = "renegade_x_launcher"
version = "0.1.0"
edition = "2021"
publish = false

[dependencies]
sha2 = "0.9"
hex = "0.4"
rand = "0.8"
url = "2"
socket2 = "0.3"
runas = "*"
unzip = "0.1"
dirs = "*"
log = "0.4"
tokio = { version = "1", features = ["rt"] }
download-async = "*"
sciter-rs = "*"
