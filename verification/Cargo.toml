[package]
name = "redeploy"
version = "0.1.0"
edition = "2021"
publish = false

[dependencies]
bollard = "*"
clap = "*"
directories = "*"
futures = "*"
reqwest = { version = "*", default-features = false, features = ["json"] }
serde_json = "*"
termion = "*"
tokio = { version = "*", features = ["rt-multi-thread", "macros", "time", "fs"] }
