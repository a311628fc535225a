[package]
name = "wasm_plugin_guest"
version = "0.1.3"
edition = "2021"

[dependencies]
getrandom = { version = "0.2", features = ["custom"] }
wasm_plugin_guest_derive = "*"
