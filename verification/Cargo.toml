[package]
name = "interpreter"
version = "0.1.0"
edition = "2021"
publish = false

[dependencies]
clap = { version = "4", features = ["derive"] }
embedded-graphics = "=0.8.2"
ibm437 = "=0.5.0"
stm32l4xx-hal = { version = "=0.7.1", features = ["stm32l475"] }
