[package]
name = "fall_detector"
version = "0.1.0"
edition = "2021"
publish = false

[dependencies]
cortex-m-rt = "=0.7.7"
critical-section-lock-mut = "=0.1.2"
embedded-hal = "=1.0.0"
log = "=0.4.34"
lsm303agr = "=1.1.0"
microbit-v2 = "=0.16.0"
micromath = "=2.1.0"
rtt-target = { version = "=0.6.2", features = ["log"] }

[dev-dependencies]
tiny-led-matrix = "=1.0.2"
