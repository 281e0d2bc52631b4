[package]
name = "sync_pins"
version = "0.1.0"
edition = "2021"
publish = false

[dependencies]
embedded-hal = "1"
vcd = "*"
