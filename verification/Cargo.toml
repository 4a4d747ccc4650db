[package]
name = "txt_record_check"
version = "0.1.0"
edition = "2021"
publish = false

[dependencies]
url = "2"
clap = "*"
tokio = { version = "*", features = ["rt-multi-thread"] }
trust-dns-resolver = "*"
