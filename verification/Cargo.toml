[package]
name = "vyond_monitor"
version = "0.1.0"
edition = "2021"
publish = false

[dependencies]
volatile-register = "*"
semihosting = "*"
