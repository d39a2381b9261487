[package]
name = "stwo_web_stark"
version = "0.1.0"
edition = "2021"
publish = false

[dependencies]
anyhow = "=1.0.104"
cairo-air = "=1.3.0"
cairo-lang-casm = { version = "=2.21.0", features = ["serde"] }
cairo-vm = "=3.2.0"
console_error_panic_hook = "=0.1.7"
getrandom = "=0.3.4"
num-bigint = "=0.4.8"
serde = { version = "=1.0.229", features = ["derive"] }
serde_json = "=1.0.154"
stwo = "=2.3.0"
stwo-cairo-adapter = "=1.3.0"
stwo-cairo-common = "=1.3.0"
