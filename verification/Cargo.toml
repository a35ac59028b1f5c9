[package]
name = "acorns"
version = "0.1.0"
edition = "2021"
publish = false

[dependencies]
askama = "*"
bugzilla_query = "*"
chrono = "0.4"
color-eyre = "0.6"
counter = "0.5"
jira_query = "*"
log = "0.4"
regex = "1"
serde = { version = "1", features = ["derive"] }
serde_json = "1"
serde_yaml = "0.9"
