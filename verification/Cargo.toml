[package]
name = "power_desk"
version = "0.1.0"
edition = "2021"
publish = false

[dependencies]
embassy-sync = "=0.8.0"
embassy-time = "=0.5.1"
embassy-futures = "=0.1.2"
embedded-hal-async = "=1.0.0"
ina226 = { version = "=0.3.0", features = ["async"] }
sw3526 = { version = "=0.2.1", features = ["async"] }
gx21m15 = { version = "=0.1.1", features = ["async"] }
log = "=0.4.34"
