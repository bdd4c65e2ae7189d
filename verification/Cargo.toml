[package]
name = "dioxus_animations"
version = "0.1.0"
edition = "2021"
publish = false

[dependencies]
dioxus-core = "0.4"
dioxus-hooks = "0.4"
easer = "0.3"
futures-util = "0.3"
instant = "0.1"
tokio = { version = "1", features = ["time"] }
uuid = { version = "1", features = ["v4"] }
