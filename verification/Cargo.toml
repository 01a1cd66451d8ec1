[package]
name = "meshcore_firmware"
version = "0.1.0"
edition = "2021"
publish = false

[dependencies]
chrono = { version = "=0.4.45", default-features = false }
heapless = "=0.9.3"
ringbuf = { version = "=0.6.0", default-features = false }
trouble-host = "=0.8.0"
embassy-futures = "=0.1.2"
embassy-time = "=0.5.1"
lora-phy = "=3.0.1"
log = "=0.4.35"
static_cell = "=2.1.1"
