[package]
name = "bluest_android"
version = "0.1.0"
edition = "2021"
publish = false

[dependencies]
async-channel = "*"
futures-core = "*"
futures-lite = "*"
java-spaghetti = "*"
ndk-context = "*"
tracing = "*"
uuid = "*"
