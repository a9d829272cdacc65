[package]
name = "esp_openthread"
version = "0.1.0"
edition = "2021"
publish = false

[dependencies]
bitflags = "2"
critical-section = { version = "1.1", features = ["std"] }
esp-hal = "0.19"
esp-ieee802154 = "0.1"
heapless = "0.8"
log = "0.4"
no-std-net = "0.6"
