[package]
name = "tag_manager"
version = "0.1.0"
edition = "2021"
publish = false

[dependencies]
image = "0.24"
imagehash = "*"
uuid = { version = "*", features = ["v4"] }
serde = { version = "*", features = ["derive"] }
serde_json = "*"
reqwest = { version = "*", default-features = false, features = ["blocking", "multipart"] }
tokio = { version = "*", features = ["rt-multi-thread", "macros", "fs"] }
futures = "*"
