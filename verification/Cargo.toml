[package]
name = "flok"
version = "0.1.0"
edition = "2021"
publish = false

[dependencies]
anyhow = "=1.0.104"
calamine = { version = "=0.37.0", features = ["dates"] }
chrono = { version = "=0.4.45", features = ["serde"] }
clap = { version = "=4.6.7", features = ["derive"] }
dateparser = "=0.3.1"
enum-ordinalize = "=4.4.2"
fltk = "=1.5.23"
layout-rs = "=0.1.3"
serde = { version = "=1.0.229", features = ["derive"] }
serde_json = "=1.0.154"
simple_table = "=0.3.1"
tempfile = "=3.27.0"
webbrowser = "=1.2.5"
