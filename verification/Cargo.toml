[package]
name = "tmtool"
version = "0.1.0"
edition = "2021"
publish = false

[dependencies]
p256 = "0.13"
pem = "3"
i2cdev = "0.6"
clap = { version = "4", features = ["derive"] }
anyhow = "1"
thiserror = "1"
