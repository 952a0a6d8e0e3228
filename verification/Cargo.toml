[package]
name = "query_logger"
version = "0.1.0"
edition = "2021"
publish = false

[dependencies]
log = "0.4"
tracing = "0.1"
sqlformat = "0.2"
pin-project = "1"
