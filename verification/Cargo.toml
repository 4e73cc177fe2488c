[package]
name = "boopboard"
version = "0.1.0"
edition = "2021"
publish = false

[dependencies]
heapless = "0.8"
smart-leds = "0.3"
ws2812-spi = "0.4"
embedded-hal = "0.2"
nb = "1"
embassy-sync = "0.6"
embassy-time = { version = "0.3", features = ["std"] }
embassy-executor = { version = "0.6", features = ["arch-std", "executor-thread"] }
