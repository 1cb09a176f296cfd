[package]
name = "bootloader"
version = "0.1.0"
edition = "2021"
publish = false

[dependencies]
sha2 = "=0.11.0"
p256 = "=0.14.0"
signature = "=3.0.0"
cortex-m = "=0.7.9"
cortex-m-rt = "=0.7.7"
panic-reset = "=0.1.1"
spi-memory = "=0.2.0"
stm32l0xx-hal = { version = "=0.10.0", features = ["mcu-STM32L072CBTx"] }
