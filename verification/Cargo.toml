[package]
name = "lebron"
version = "0.1.0"
edition = "2021"
publish = false

[dependencies]
fastrand = "=2.5.0"
embedded-graphics = "=0.8.2"
tinytga = "=0.5.0"
mipidsi = "=0.9.0"
linux-embedded-hal = "=0.4.1"
rppal = { version = "=0.22.1", features = ["hal"] }
embedded-graphics-simulator = "=0.8.0"
lis3dh = "=0.4.4"
embedded-hal-bus = "=0.3.0"
embedded-hal-compat = "=0.13.0"
embedded-io = "=0.7.1"
log = "=0.4.34"
esp-hal = { version = "1", features = ["esp32s3", "unstable"] }
esp-println = "*"
esp-bootloader-esp-idf = "*"
