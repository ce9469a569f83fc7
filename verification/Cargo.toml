[package]
name = "nucleo_stm32g071rb"
version = "0.1.0"
edition = "2021"
publish = false

[dependencies]
cortex-m = "0.7"
cortex-m-rt = "0.7"
defmt = "*"
embedded-hal = "0.2"
manchester-code = "*"
nb = "1"
rotary-encoder-hal = "0.5"
stm32g0xx-hal = { version = "*", features = ["rt", "stm32g071"] }
