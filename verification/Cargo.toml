[package]
name = "mos6502"
version = "0.1.0"
edition = "2021"
publish = false

[dependencies]
color-eyre = "0.6"
thiserror = "1"
darling = "0.20"
syn = { version = "2", features = ["full"] }
quote = "1"
proc-macro2 = "1"
