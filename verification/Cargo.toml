[package]
name = "event_ipc"
version = "0.1.0"
edition = "2021"
publish = false

[dependencies]
crossfire = "*"
derive_more = { version = "*", features = ["display", "from", "deref", "into"] }
futures-util = { version = "*", features = ["sink"] }
postcard = { version = "*", features = ["use-std"] }
serde = { version = "*", features = ["derive"] }
tokio = { version = "*", features = ["full"] }
tokio-util = { version = "*", features = ["codec"] }
