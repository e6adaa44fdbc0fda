[package]
name = "midival-renaissance-lib"
version = "0.1.0"
edition = "2021"
publish = false

[dependencies]
defmt = "=1.2.0"
defmt-rtt = "=1.3.1"
embassy-executor = { version = "=0.9.1", features = ["arch-std", "executor-thread"] }
embassy-futures = "=0.1.2"
embassy-stm32 = { version = "=0.6.0", features = ["stm32f767zi", "time-driver-any", "exti", "memory-x", "single-bank"] }
embassy-sync = "=0.8.0"
embassy-time = "=0.5.1"
embassy-usb = { version = "=0.6.0", default-features = false }
embedded-hal = "=1.0.0"
panic-probe = "=1.0.0"
static_cell = "=2.1.1"
tinyvec = "=1.13.3"
wmidi = "=4.0.11"

[dev-dependencies]
critical-section = { version = "=1.2.0", features = ["std"] }
embassy-time = { version = "=0.5.1", features = ["mock-driver"] }
