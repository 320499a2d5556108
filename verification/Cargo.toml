[package]
name = "vault_iam_auth"
version = "0.1.0"
edition = "2021"
publish = false

[dependencies]
aws-config = { version = "1", default-features = false, features = ["rt-tokio"] }
aws-credential-types = "1"
aws-sigv4 = "1"
base64 = "0.21"
http-body-util = "0.1"
hyper = { version = "1", features = ["client", "http1"] }
hyper-util = { version = "0.1", features = ["tokio"] }
serde = { version = "1", features = ["derive"] }
serde_json = "1"
tokio = { version = "1", features = ["net", "rt", "macros"] }
