[package]
name = "fontations_bridge"
version = "0.1.0"
edition = "2021"
publish = false

[dependencies]
cxx = "1"
font-types = "0.4"
read-fonts = "0.14"
skrifa = "0.14"

[dev-dependencies]
font-test-data = "*"
