[package]
name = "ledstrip"
version = "0.1.0"
edition = "2021"
publish = false

[dependencies]
chrono = "=0.4.45"
palette = "=0.6.1"
simple-easing = "=1.1.1"
dioxus = { version = "0.2", features = ["web"] }
gloo = { version = "*", features = ["futures"] }
wasm-logger = "*"
console_error_panic_hook = "*"
