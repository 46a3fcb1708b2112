[package]
name = "rustyfiles"
version = "0.1.0"
edition = "2021"
publish = false

[dependencies]
urlencoding = "*"
url = "*"
mime_guess = "*"
http = "*"
image = { version = "*", default-features = false, features = ["png", "jpeg", "gif", "webp"] }
axum = "*"
tokio = { version = "*", features = ["full"] }
tokio-util = { version = "*", features = ["io"] }
bytes = "*"
async-trait = "*"
dotenv = "*"
tracing = "*"
tracing-subscriber = "*"
reqwest = { version = "*", default-features = false, features = ["rustls-tls"] }
aws-config = "*"
aws-credential-types = "*"
aws-sdk-s3 = "*"
webp = "*"
ravif = { version = "*", default-features = false }
rgb = "*"
