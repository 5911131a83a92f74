[package]
name = "stm32f4xx-usart"
version = "0.1.0"
edition = "2021"
publish = false

[dependencies]
tock-registers = "=0.9.0"
