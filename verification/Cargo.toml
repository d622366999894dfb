[package]
name = "pm"
version = "0.1.0"
edition = "2021"
publish = false

[dependencies]
async-broadcast = "=0.3.4"
async-channel = "=1.9.0"
async-oneshot = "=0.5.9"
async-process = "=1.8.1"
futures-lite = "=1.13.0"
generational-arena = "=0.2.9"
log = "=0.4.35"
pretty_env_logger = "*"
signal-child = "=1.0.7"
smol = "=1.3.0"
