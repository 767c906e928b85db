[package]
name = "avr-q"
version = "0.1.0"
edition = "2021"
publish = false

[dependencies]
avr-int24 = "=1.1.0"
curveipo = "=1.1.0"
itoa = "=1.0.18"
avr-device = { version = "=0.7.0", features = ["atmega328p"] }
