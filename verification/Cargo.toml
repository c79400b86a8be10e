[package]
name = "chainlink_feeds"
version = "0.1.0"
edition = "2021"
publish = false

[dependencies]
alloy-primitives = "*"
alloy-chains = "*"
serde_json = "*"
reqwest = { version = "*", default-features = false, features = ["json"] }
