[package]
name = "lolesports"
version = "0.1.0"
edition = "2021"
publish = false

[dependencies]
mediawiki = "*"
serde_json = "*"
tokio = { version = "*", features = ["macros", "rt-multi-thread"] }
