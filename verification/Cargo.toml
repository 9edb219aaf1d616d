[package]
name = "stm32"
version = "0.1.0"
edition = "2021"
publish = false

[dependencies]
cortex-m = "0.7"
cortex-m-rt = "0.7"
rtt-target = { version = "0.3", features = ["cortex-m"] }
stm32f1xx-hal = { version = "0.9", features = ["stm32f103", "rt", "high"] }
