[package]
name = "simple_rust"
version = "1.0.0"
edition = "2021"
publish = false

[dependencies]
actix-web = "=4.15.0"
actix-web-opentelemetry = { version = "=0.22.0", features = ["metrics"] }
clap = "=4.6.7"
opentelemetry = { version = "=0.29.1", features = ["metrics"] }
opentelemetry-prometheus = "=0.29.1"
opentelemetry_sdk = { version = "=0.29.0", features = ["metrics"] }
prometheus = "=0.14.0"
tracing = "=0.1.44"
tracing-actix-web = "=0.7.25"
tracing-appender = "=0.2.5"
tracing-bunyan-formatter = "=0.3.10"
tracing-log = "=0.2.0"
tracing-subscriber = { version = "=0.3.23", features = ["env-filter", "registry"] }
