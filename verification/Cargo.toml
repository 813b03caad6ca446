[package]
name = "topic_digest"
version = "0.1.0"
edition = "2021"
publish = false

[dependencies]
actix-web = "*"
chrono = "*"
dotenv = "*"
env_logger = "*"
futures-util = "*"
lettre = { version = "*", default-features = false, features = ["smtp-transport", "builder"] }
pulldown-cmark = "*"
reqwest = { version = "*", default-features = false, features = ["json"] }
serde = { version = "*", features = ["derive"] }
url = "*"
