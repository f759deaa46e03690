[package]
name = "opensi-core"
version = "0.1.0"
edition = "2021"
publish = false

[dependencies]
serde = { version = "1", features = ["derive"] }
quick-xml = { version = "*", features = ["serialize"] }
zip = { version = "*", default-features = false, features = ["deflate"] }
percent-encoding = "2"
chrono = { version = "0.4", default-features = false, features = ["clock"] }
uuid = { version = "1", features = ["v4"] }
