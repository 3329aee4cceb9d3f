[package]
name = "leptos_react"
version = "0.1.0"
edition = "2021"
publish = false

[dependencies]
wasm-bindgen = "0.2"
js-sys = "0.3"
web-sys = { version = "0.3", features = ["HtmlElement", "HtmlDivElement", "Element", "Node"] }
leptos = "0.8"
parking_lot = "0.12"
tracing = "0.1"
thiserror = "2"
send_wrapper = "0.6"
paste = "1"
