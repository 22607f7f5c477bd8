[package]
name = "roi_editor"
version = "0.1.0"
edition = "2021"
publish = false

[dependencies]
base64 = "0.22"
image = { version = "0.25", default-features = false, features = ["png", "jpeg", "webp"] }
dioxus = { version = "0.6", default-features = false, features = ["macro", "html", "hooks", "signals", "launch"] }
rfd = "0.15"
opencv = "0.94"
tokio = { version = "1", features = ["fs"] }
