[package]
name = "chicken_coop"
version = "0.1.0"
edition = "2021"
publish = false

[dependencies]
axum = "*"
clap = { version = "*", features = ["derive"] }
dotenvy = "*"
image = { version = "*", default-features = false, features = ["jpeg", "png"] }
ndarray = "*"
nokhwa = "*"
reqwest = { version = "*", default-features = false, features = ["blocking", "json"] }
rppal = "*"
serde = { version = "*", features = ["derive"] }
tokio = { version = "*", features = ["macros", "rt-multi-thread", "net", "time", "sync"] }
tower-http = { version = "*", features = ["cors"] }
tract-onnx = "*"
