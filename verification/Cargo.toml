[package]
name = "async_zero_cost_templating"
version = "0.1.0"
edition = "2021"
publish = false

[dependencies]
proc-macro2 = "1"
syn = "2"
tokio = { version = "1", features = ["sync"] }
futures-core = "0.3"
futures-util = "0.3"
pin-project = "1"
