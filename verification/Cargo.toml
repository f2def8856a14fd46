[package]
name = "lktunnel"
version = "0.1.0"
edition = "2021"
publish = false

[dependencies]
android_logger = { version = "0.14", default-features = false }
async-trait = "0.1"
jni = "0.21"
libc = "0.2"
log = "0.4"
once_cell = "1"
parking_lot = "0.12"
tokio = { version = "1", features = ["macros", "rt-multi-thread", "signal", "sync", "time"] }
