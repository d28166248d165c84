[package]
name = "leptos_flow"
version = "0.1.0"
edition = "2021"
publish = false

[dependencies]
leptos = { version = "=0.4.10", features = ["csr"] }
leptos_meta = { version = "=0.4.10", features = ["csr"] }
tracing = "=0.1.44"
