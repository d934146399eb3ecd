[package]
name = "spisen"
version = "0.1.0"
edition = "2021"
publish = false

[dependencies]
smart-leds = "=0.3.0"
ws2812-spi = "=0.4.0"
embedded-hal = "=0.2.7"
stm32f4xx-hal = { version = "=0.23.0", features = ["stm32f401", "rtic1"] }
cortex-m = "=0.7.10"
cortex-m-rtic = "=1.1.4"
defmt = "=0.3.101"
defmt-rtt = "=0.3.1"
panic-probe = { version = "=0.3.2", features = ["print-defmt"] }
