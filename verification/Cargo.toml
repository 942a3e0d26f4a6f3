[package]
name = "folio_browser"
version = "0.1.0"
edition = "2021"
publish = false

[dependencies]
base64 = "=0.22.1"
fs2 = "=0.4.3"
rusqlite = { version = "=0.41.1", features = ["bundled"] }
serde = { version = "=1.0.229", features = ["derive"] }
serde_json = { version = "=1.0.154", features = ["preserve_order"] }
time = { version = "=0.3.55", features = ["formatting"] }
url = "=2.5.8"
uuid = { version = "=1.29.0", features = ["v4"] }
