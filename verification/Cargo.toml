[package]
name = "control_node"
version = "0.1.0"
edition = "2021"
publish = false

[dependencies]
querystring = "*"
uuid = { version = "*", features = ["v4"] }
heapless = "*"
log = "*"
embedded-svc = "*"
esp-idf-hal = "*"
esp-idf-svc = "*"
esp-idf-sys = "*"

[dev-dependencies]
serde_json = "*"
