[package]
name = "beacn_utility"
version = "0.1.0"
edition = "2021"
publish = false

[dependencies]
anyhow = "=1.0.104"
fontdue = "=0.9.5"
futures-util = "=0.3.34"
image = { version = "=0.25.10", default-features = false, features = ["jpeg", "png"] }
json-patch = "=4.2.0"
log = "=0.4.34"
oneshot = { version = "=0.2.1", features = ["std"] }
serde = { version = "=1.0.229", features = ["derive"] }
serde_json = "=1.0.154"
tokio = { version = "=1.54.1", features = ["rt-multi-thread", "macros", "time", "sync", "net"] }
tokio-tungstenite = "=0.30.0"
ulid = { version = "=1.2.1", features = ["serde"] }
xdg = "=3.0.0"
