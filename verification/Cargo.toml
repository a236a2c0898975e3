[package]
name = "zenoh-jni"
version = "0.1.0"
edition = "2021"
publish = false

[dependencies]
zenoh = { version = "1", default-features = false, features = ["unstable", "internal"] }
zenoh-ext = { version = "1", default-features = false, features = ["unstable"] }
jni = "0.21"
json5 = "0.4"
serde_yaml = "0.9"
tracing = "0.1"
uhlc = "0.8"
android-logd-logger = "*"
