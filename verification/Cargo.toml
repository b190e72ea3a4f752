[package]
name = "server_rs"
version = "0.1.0"
edition = "2021"
publish = false

[dependencies]
android_logger = "0.15"
jni = "0.21"
log = "0.4"
