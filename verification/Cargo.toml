[package]
name = "binst"
version = "0.1.0"
edition = "2021"
publish = false

[dependencies]
semver = "=1.0.28"
toml = "=0.8.23"
clap = { version = "=4.6.7", features = ["cargo"] }
dirs = "=5.0.1"
libflate = "=2.3.2"
tar = "=0.4.46"
reqwest = { version = "=0.12.28", default-features = false, features = ["rustls-tls"] }
tokio = { version = "=1.54.1", features = ["rt-multi-thread", "macros", "io-util", "fs"] }
tokio-stream = "=0.1.19"
aws-sdk-s3 = "=1.152.0"
aws-config = "=1.12.0"
aws-types = "=1.6.0"
mime_guess = "=2.0.5"
platform-info = "=2.2.1"
thiserror = "=1.0.69"
