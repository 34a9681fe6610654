[package]
name = "codecommit_creds"
version = "0.1.0"
edition = "2021"
publish = false

[dependencies]
ring = "*"
hex = "*"
url = "*"
git2 = "*"
rusoto_credential = "*"
time = "*"
tokio = { version = "*", features = ["rt"] }
