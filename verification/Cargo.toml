[package]
name = "foc_core"
version = "0.1.0"
edition = "2021"
publish = false

[dependencies]
cortex-m = "=0.7.9"
stm32g4xx-hal = { version = "=0.1.0", features = ["stm32g431"] }
stm32ral = { version = "=0.8.0", features = ["stm32g431"] }
