[package]
name = "am-api"
version = "0.1.0"
edition = "2021"
publish = false

[dependencies]
async-stream = "0.3"
celes = "2"
futures = "0.3"
reqwest = { version = "0.11", default-features = false, features = ["json", "rustls-tls"] }
serde = { version = "1", features = ["derive"] }
serde-hex = "0.1"
serde_json = "1"
thiserror = "1"
time = { version = "0.3", features = ["macros", "serde", "serde-well-known", "parsing", "formatting"] }
tinytemplate = "1"
