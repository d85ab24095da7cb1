[package]
name = "rust_x_arduino"
version = "0.1.0"
edition = "2021"
publish = false

[dependencies]
ag-lcd = { version = "=0.3.0", features = ["i2c"] }
avr-device = { version = "=0.7.0", features = ["atmega328p", "rt"] }
embedded-hal = "=1.0.0"
infrared = "=0.14.2"
panic-halt = "=1.0.0"
port-expander = "=0.6.5"
ufmt = "=0.2.0"
