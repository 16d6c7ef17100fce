[package]
name = "led_toggle"
version = "0.1.0"
edition = "2021"
publish = false

[dependencies]
smart-leds = "0.4"
rgb = "0.8"
critical-section = { version = "1", features = ["std"] }
