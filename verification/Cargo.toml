[package]
name = "vehicle_signals"
version = "0.1.0"
edition = "2021"
publish = false

[dependencies]
critical-section = { version = "=1.2.0", features = ["std"] }
fugit = "=0.3.9"
rp2040-hal = { version = "=0.9.2", features = ["rt"] }
cortex-m = "=0.7.9"
pio = "=0.2.1"
pio-proc = "=0.2.2"
rp2040-boot2 = "=0.3.0"
