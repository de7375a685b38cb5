[package]
name = "envmon"
version = "0.1.0"
edition = "2021"
publish = false

[dependencies]
heapless = "*"
defmt-rtt = "*"
ds18b20 = "*"
embassy-executor = "*"
embassy-rp = "*"
embassy-time = "*"
embassy-usb-logger = "*"
embedded-graphics = "*"
log = "*"
one-wire-bus = "*"
panic-probe = "*"
ssd1306 = "*"
