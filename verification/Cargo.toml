[package]
name = "ads1298"
version = "0.1.0"
edition = "2021"
publish = false

[dependencies]
bitfield = "*"
byteorder = "1"
embedded-hal = "1"
log = "0.4"
ux = "0.1"
