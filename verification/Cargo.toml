[package]
name = "serial"
version = "0.1.0"
edition = "2021"
publish = false

[dependencies]
assign-resources = "=0.5.0"
cortex-m = { version = "=0.7.10", features = ["critical-section-single-core"] }
cortex-m-rt = "=0.7.7"
defmt = "=1.2.0"
defmt-rtt = "=1.3.1"
embassy-executor = { version = "=0.9.1", features = ["arch-cortex-m", "defmt"] }
embassy-stm32 = { version = "=0.6.0", features = ["stm32f401re", "memory-x", "defmt"] }
panic-probe = { version = "=1.0.0", features = ["print-defmt"] }
