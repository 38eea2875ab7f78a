[package]
name = "sarasara"
version = "0.1.0"
edition = "2021"
publish = false

[dependencies]
url = "2"
time = { version = "0.3", features = ["formatting"] }
rss = "2"
serde = { version = "1", features = ["derive"] }
clap = { version = "4", features = ["derive"] }
async-std = { version = "1", features = ["attributes"] }
tide = "0.16"
surf = { version = "2", default-features = false, features = ["h1-client-rustls"] }
