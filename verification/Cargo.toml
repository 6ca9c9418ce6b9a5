[package]
name = "tidy_builder"
version = "0.1.0"
edition = "2021"
publish = false

[dependencies]
convert_case = "*"
syn = { version = "2", features = ["full", "parsing", "printing"] }
quote = "*"
proc-macro2 = "*"
