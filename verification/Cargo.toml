[package]
name = "mqb"
version = "0.1.0"
edition = "2021"
publish = false

[dependencies]
bson = { version = "2", features = ["chrono-0_4"] }
serde = "1"
convert_case = "*"
syn = "2"
quote = "1"
proc-macro2 = "1"

[dev-dependencies]
chrono = "0.4"
