[package]
name = "credit_card"
version = "0.1.0"
edition = "2021"
publish = false

[dependencies]
card-validate = "2.3"
