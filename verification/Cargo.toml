[package]
name = "media_compress"
version = "0.1.0"
edition = "2021"
publish = false

[dependencies]
image = { version = "*", default-features = false, features = ["png", "jpeg", "gif", "webp", "bmp"] }
oxipng = { version = "*", default-features = false, features = ["zopfli"] }
serde_json = "*"
base64 = "*"
tempfile = "*"
thiserror = "*"
ureq = { version = "2", default-features = false }
