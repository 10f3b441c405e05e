[package]
name = "trouble_audio"
version = "0.1.0"
edition = "2021"
publish = false

[dependencies]
trouble-host = "*"
bt-hci = "*"
embassy-futures = "*"
embassy-sync = "*"
static_cell = "*"
heapless = "*"
serde = { version = "*", features = ["derive"] }
