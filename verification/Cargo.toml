[package]
name = "clocktree"
version = "0.1.0"
edition = "2021"
publish = false

[dependencies]
critical-section = "=1.2.0"
embedded-hal = "=1.0.0"
embedded-hal-async = "=1.0.0"
embedded-storage = "=0.3.2"
embedded-storage-async = "=0.4.2"
stm32-metapac = { version = "=21.0.0", features = ["stm32h747ai-cm7"] }
