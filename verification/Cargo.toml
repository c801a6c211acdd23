[package]
name = "kontroller"
version = "0.1.0"
edition = "2021"
publish = false

[dependencies]
anyhow = "1"
embassy-time = "*"
esp-idf-svc = "*"
esp32-nimble = "*"
futures = "0.3"
log = "0.4"
prost = "*"
usbd-hid = "*"
