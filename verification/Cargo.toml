[package]
name = "mental_poker"
version = "0.1.0"
edition = "2021"
publish = false

[dependencies]
ziffle = "=0.1.0"
ark-serialize = "=0.5.0"
rand = "=0.8.8"
base64 = "=0.23.1"
getrandom = "=0.4.3"
once_cell = "=1.21.4"
serde = { version = "=1.0.229", features = ["derive"] }
