[package]
name = "logitech_led_sdk"
version = "0.1.0"
edition = "2021"
publish = false
