[package]
name = "hashtrack"
version = "0.1.0"
edition = "2021"
publish = false

[dependencies]
chrono = "*"
getopts = "*"
rpassword = "*"
text_io = "*"
tokio = { version = "*", features = ["full"] }
