[package]
name = "greedy"
version = "0.1.0"
edition = "2021"
publish = false

[dependencies]
image = { version = "*", default-features = false, features = ["avif", "png", "jpeg", "gif", "webp", "bmp", "ico", "tiff"] }
moka = { version = "*", features = ["sync"] }
url = "*"
axum = "*"
tokio = { version = "*", features = ["rt-multi-thread", "net", "macros"] }
tower-http = { version = "*", features = ["trace"] }
tracing = "*"
tracing-subscriber = "*"
ureq = "*"
serde = { version = "*", features = ["derive"] }
thiserror = "*"
