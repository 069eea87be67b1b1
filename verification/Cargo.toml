[package]
name = "iledcolor"
version = "0.1.0"
edition = "2021"
publish = false

[dependencies]
crc = "3"
image = { version = "0.25", default-features = false, features = ["gif", "png", "jpeg", "bmp", "tiff", "webp"] }
bluest = "*"
log = "0.4"
tokio = { version = "1", features = ["macros", "rt-multi-thread", "time"] }
tokio-stream = "0.1"
