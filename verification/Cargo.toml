[package]
name = "ezboom"
version = "0.1.0"
edition = "2021"
publish = false

[dependencies]
byteorder = "1"
faccess = "0.2"
num = "0.4"
regex = "1"
sdl2 = "*"
serde = { version = "1", features = ["derive"] }
serde-hex = "*"
serde_yaml = "0.8"
