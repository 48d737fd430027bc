[package]
name = "seven_segment"
version = "0.1.0"
edition = "2021"
publish = false

[dependencies]
avr-device = { version = "0.5", features = ["atmega328p"] }
panic-halt = "0.2"
ufmt = { version = "0.2", features = ["std"] }
