[package]
name = "chart_formatter"
version = "0.1.0"
edition = "2021"
publish = false

[dependencies]
charming = { version = "=0.4.0", features = ["wasm"] }
js-sys = "=0.3.106"
leptos = "=0.6.15"
leptos_meta = "=0.6.15"
leptos_router = "=0.6.15"
