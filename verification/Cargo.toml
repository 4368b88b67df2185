[package]
name = "jira_worklogs"
version = "0.1.0"
edition = "2021"
publish = false

[dependencies]
anyhow = "1"
chrono = { version = "0.4", default-features = false, features = ["std"] }
image = { version = "0.24", default-features = false, features = ["jpeg"] }
itertools = "0.10"
reqwest = { version = "0.11", default-features = false, features = ["blocking", "json"] }
serde_json = "1"
