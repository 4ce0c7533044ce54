[package]
name = "onitamalib"
version = "0.1.0"
edition = "2021"
publish = false

[dependencies]
rand = "=0.8.8"
serde = { version = "=1.0.229", features = ["derive"] }
serde_json = "=1.0.154"
wasm-bindgen = { version = "=0.2.129", features = ["serde-serialize"] }
js-sys = "=0.3.106"
log = "=0.4.34"
pretty_env_logger = "=0.5.0"
actix = "=0.13.5"
actix-web = { version = "=4.18.1", default-features = false, features = ["macros", "ws"] }
actix-files = "=0.6.10"
actix-web-actors = "=4.3.1"
