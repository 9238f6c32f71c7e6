[package]
name = "erudify"
version = "0.1.0"
edition = "2021"
publish = false

[dependencies]
oauth2 = "=4.4.2"
serde = { version = "=1.0.229", features = ["derive"] }
leptos = "=0.7.8"
leptos_router = { version = "=0.7.8", features = ["ssr"] }
leptos_meta = "=0.7.8"
reqwest = "=0.11.27"
send_wrapper = "=0.6.0"
log = "=0.4.35"
anyhow = "1"
tokio = { version = "1", features = ["rt-multi-thread", "time"] }
thirtyfour = "*"
