[package]
name = "chan_tui"
version = "0.1.0"
edition = "2021"
publish = false

[dependencies]
image = "*"
reqwest = { version = "*", default-features = false, features = ["blocking", "json"] }
serde = { version = "*", features = ["derive"] }
serde_json = "*"
chrono = "*"
cursive = { version = "*", default-features = false }
log = "*"
simplelog = "*"
