[package]
name = "reoserv"
version = "0.1.0"
edition = "2021"
publish = false

[dependencies]
eolib = "=1.0.0"
eo = "=0.0.4"
eoplus = "=1.0.0-RC1"
bytes = "=1.12.1"
tokio = { version = "=1.54.1", features = ["sync", "rt", "macros"] }
mysql_async = { version = "=0.37.1", default-features = false, features = ["minimal-rust"] }
