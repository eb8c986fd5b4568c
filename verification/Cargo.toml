[package]
name = "miniref"
version = "0.1.0"
edition = "2021"
publish = false

[dependencies]
gray_matter = "0.2"
markdown = "1"
regex = "1"
html-escape = "0.2"
syntect = "5"
katex = "0.4"
mime_guess = "2"
parking_lot = "0.12"
serde = { version = "1", features = ["derive"] }
axum = "0.7"
tokio = { version = "1", features = ["rt-multi-thread", "macros", "net"] }
http = "1"
leptos = { version = "0.7", features = ["ssr"] }
leptos_axum = "0.7"
leptos_meta = { version = "0.7", features = ["ssr"] }
leptos_router = { version = "0.7", features = ["ssr"] }
reqwest = { version = "0.12", default-features = false, features = ["json"] }
wasm-bindgen = "0.2"
web-sys = { version = "0.3", features = ["Window"] }
js-sys = "0.3"
console_error_panic_hook = "0.1"
