[package]
name = "austenite"
version = "0.1.0"
edition = "2021"
publish = false

[dependencies]
hyper = "0.10"
iron = "0.6"
log = "0.4"
mime = "0.2"
time = "0.1"
