[package]
name = "zvuk_dl"
version = "0.1.0"
edition = "2021"
publish = false

[dependencies]
serde_json = "*"
mime = "*"
mime_guess = "*"
serde = { version = "*", features = ["derive"] }
axum = "*"
hyper = "*"
reqwest = { version = "*", default-features = false }
tokio = { version = "*", features = ["rt-multi-thread", "macros", "net", "time", "fs"] }
