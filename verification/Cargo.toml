[package]
name = "button_gesture"
version = "0.1.0"
edition = "2021"
publish = false

[dependencies]
fugit = "0.3"
cortex-m = { version = "0.7", features = ["critical-section-single-core"] }
defmt = "0.3"
defmt-rtt = "0.4"
panic-probe = { version = "0.3", features = ["print-defmt"] }
rtic = { version = "2", features = ["thumbv7-backend"] }
rtic-monotonics = { version = "2", features = ["cortex-m-systick"] }
stm32f1xx-hal = { version = "0.10", features = ["stm32f103", "rt", "medium"] }
