[package]
name = "sql_plan"
version = "0.1.0"
edition = "2021"
publish = false

[dependencies]
aws-arn = "=0.1.1"
parse_duration = "=2.1.1"
regex = "=1.13.1"
rusoto_core = { version = "=0.45.0", default-features = false, features = ["rustls"] }
unicase = "=2.10.0"
url = "=2.5.8"
