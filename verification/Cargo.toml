[package]
name = "eos_guide"
version = "0.1.0"
edition = "2021"
publish = false

[dependencies]
gloo = "*"
serde = { version = "1", features = ["derive"] }
serde_json = "1"
web-sys = { version = "0.3", features = ["Window", "console"] }
yew = { version = "0.21", features = ["csr"] }
