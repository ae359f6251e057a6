[package]
name = "ctest-next"
version = "0.1.0"
edition = "2021"
publish = false

[dependencies]
askama = "0.14"
either = "1"
proc-macro2 = "1"
quote = "1"
syn = { version = "2", features = ["full", "visit", "extra-traits"] }
thiserror = "2"
