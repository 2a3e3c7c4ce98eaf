[package]
name = "tracing_etw"
version = "0.1.0"
edition = "2021"
publish = false

[dependencies]
chrono = { version = "0.4", default-features = false, features = ["std"] }
const_format = "0.2"
dashmap = "*"
eventheader = "*"
eventheader_dynamic = "*"
once_cell = "1"
paste = "1"
tracelogging = "*"
tracelogging_dynamic = "*"
tracing = "0.1"
tracing-core = "0.1"
tracing-subscriber = { version = "0.3", default-features = false, features = ["registry", "std"] }
