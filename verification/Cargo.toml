[package]
name = "motor_control"
version = "0.1.0"
edition = "2021"
publish = false

[dependencies]
cortex-m = "=0.7.10"
cortex-m-rt = "=0.7.7"
cortex-m-semihosting = "=0.3.7"
embedded-hal = "=0.2.7"
nb = "=1.1.0"
panic-semihosting = "=0.5.6"
stm32l0xx-hal = { version = "=0.10.0", features = ["mcu-STM32L053R8Tx", "rt"] }
