[package]
name = "undo_block_user"
version = "0.1.0"
edition = "2021"
publish = false

[dependencies]
activitystreams = "0.7.0-alpha.11"
url = "2"
serde = { version = "1", features = ["derive"] }
serde_json = "1"
uuid = { version = "1", features = ["v4"] }
