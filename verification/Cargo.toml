[package]
name = "fbr_tools"
version = "0.1.0"
edition = "2021"
publish = false

[dependencies]
chrono = "=0.4.45"
printpdf = { version = "=0.12.8", default-features = false, features = ["png"] }
tiberius = { version = "=0.12.3", default-features = false, features = ["tds73", "chrono", "rustls"] }
tokio = { version = "=1.54.1", features = ["rt-multi-thread", "macros", "net"] }
tokio-util = { version = "=0.7.20", features = ["compat"] }
axum = "=0.8.9"
dotenvy = "=0.15.7"
leptos = { version = "0.8", features = ["ssr"] }
leptos_axum = "0.8"
leptos_meta = { version = "0.8", features = ["ssr"] }
leptos_router = { version = "0.8", features = ["ssr"] }
