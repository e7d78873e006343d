[package]
name = "rpi-hal-embassy"
version = "0.5.0"
edition = "2021"
publish = false

[dependencies]
critical-section = "=1.2.0"
embassy-executor = "=0.10.0"
embassy-net-driver = "=0.2.0"
embassy-net-driver-channel = "=0.4.0"
embassy-time = { version = "=0.5.1", features = ["tick-hz-1_000_000"] }
embassy-time-driver = { version = "=0.2.2", features = ["tick-hz-1_000_000"] }
embassy-time-queue-utils = { version = "=0.3.2", features = ["generic-queue-64"] }
embassy-usb-driver = "=0.2.2"
rpi-hal = { version = "=0.11.0", features = ["bcm2837", "async"] }
