[package]
name = "scanner_signature_app"
version = "0.1.0"
edition = "2021"
publish = false

[dependencies]
image = { version = "=0.25.10", default-features = false, features = ["png", "webp"] }
rqrr = "=0.11.0"
log = "=0.4.35"
kurbo = "=0.13.1"
smallvec = "=1.16.4"
scopeguard = "=1.2.0"
uuid = { version = "=1.29.0", features = ["v4"] }
chrono = "=0.4.45"
serde = { version = "=1.0.229", features = ["derive"] }
env_logger = "=0.11.11"
jni = "=0.21.1"
ndk-sys = "=0.6.0"
android-activity = { version = "=0.6.1", features = ["native-activity"] }
android_logger = "=0.15.1"
tracing-subscriber = { version = "=0.3.23", features = ["env-filter", "fmt"] }
