[package]
name = "dw_apb_i2c"
version = "0.1.0"
edition = "2021"
publish = false

[dependencies]
bitflags = "2"
tock-registers = "0.9"
