[package]
name = "ec2_connector"
version = "0.1.0"
edition = "2021"
publish = false

[dependencies]
chrono = "0.4"
clap = { version = "4", features = ["derive"] }
tokio = { version = "1", features = ["macros", "rt-multi-thread", "time"] }
dirs = "5"
aws-config = { version = "1", default-features = false }
aws-sdk-ec2instanceconnect = { version = "1", default-features = false }
aws-sdk-apprunner = { version = "1", default-features = false }
