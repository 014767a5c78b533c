[package]
name = "keyed_signal"
version = "0.1.0"
edition = "2021"
publish = false

[dependencies]
leptos = { version = "=0.2.5", features = ["stable"] }
leptos_meta = { version = "=0.2.5", features = ["stable"] }
leptos_router = { version = "=0.2.5", features = ["stable"] }
serde = { version = "=1.0.229", features = ["derive"] }
serde_json = "=1.0.151"
tracing = "0.1"
web-sys = { version = "=0.3.106", features = ["Window", "Storage"] }
