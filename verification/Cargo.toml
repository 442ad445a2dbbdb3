[package]
name = "akkadia"
version = "0.1.0"
edition = "2021"
publish = false

[dependencies]
serde = "1"
serde_derive = "1"
serde_json = "1"
jsonrpc-core = "7"
languageserver-types = "0.12"
url = "1"
log = "0.3"
fern = "0.4"
chrono = "0.4"
lazy_static = "1"
