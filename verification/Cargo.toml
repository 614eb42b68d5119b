[package]
name = "lemmy_apub"
version = "0.1.0"
edition = "2021"
publish = false

[dependencies]
activitypub_federation = "0.3"
activitystreams-kinds = "0.2"
async-trait = "0.1"
serde = { version = "1", features = ["derive"] }
serde_json = "1"
tracing = "0.1"
url = { version = "2", features = ["serde"] }
