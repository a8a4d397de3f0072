[package]
name = "tl_mbox"
version = "0.1.0"
edition = "2021"
publish = false

[dependencies]
stm32-metapac = { version = "*", features = ["stm32l412kb"] }
