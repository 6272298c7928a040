[package]
name = "blinky"
version = "0.1.0"
edition = "2021"
publish = false

[dependencies]
typed-fsm = "=0.4.8"
critical-section = "=1.2.0"
ufmt = "=0.2.0"
panic-halt = "=1.0.0"
avr-device = { version = "=0.9.0", features = ["atmega328p", "rt"] }
