[package]
name = "dbmgr"
version = "0.1.0"
edition = "2021"
publish = false

[dependencies]
clap = { version = "4", features = ["derive", "env"] }
postgres = "0.19"
redis = "0.27"
which = "7"
