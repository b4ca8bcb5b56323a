[package]
name = "kickme"
version = "0.1.0"
edition = "2021"
publish = false

[dependencies]
tokio = { version = "1", features = ["macros", "rt-multi-thread"] }
tracing = "0.1"
tracing-subscriber = "0.3"
twilight-cache-inmemory = { version = "0.16", features = ["permission-calculator"] }
twilight-gateway = "0.16"
twilight-http = "0.16"
twilight-model = "0.16"
valk-utils = "*"
vss = "*"
