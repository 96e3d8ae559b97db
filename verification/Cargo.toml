[package]
name = "portfolio"
version = "0.1.0"
edition = "2021"
publish = false

[dependencies]
axum = "*"
axum-htmx = { version = "*", features = ["auto-vary"] }
maud = "*"
serde = { version = "*", features = ["derive"] }
tokio = { version = "*", features = ["macros", "net", "rt-multi-thread"] }
tower = "*"
tower-http = { version = "*", features = ["fs", "set-header"] }
