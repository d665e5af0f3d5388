[package]
name = "website"
version = "0.1.0"
edition = "2021"
publish = false

[dependencies]
pulldown-cmark = { version = "=0.11.3", default-features = false, features = ["html"] }
serde = { version = "=1.0.229", features = ["derive"] }
serde_yml = "=0.0.13"
rust-embed = "=8.13.0"
leptos = { version = "=0.6.15", features = ["experimental-islands"] }
leptos_meta = "=0.6.15"
leptos_router = "=0.6.15"
leptos-use = "=0.13.13"
codee = "=0.2.0"
time = "=0.3.55"
log = "=0.4.34"
console_log = "=1.1.0"
console_error_panic_hook = "=0.1.7"
wasm-bindgen = "=0.2.129"
