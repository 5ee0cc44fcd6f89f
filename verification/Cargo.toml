[package]
name = "webclip"
version = "0.1.0"
edition = "2021"
publish = false

[dependencies]
actix = "*"
actix-files = "*"
actix-web = "*"
actix-web-actors = "*"
dotenvy = "*"
tokio = { version = "*", features = ["macros", "rt", "rt-multi-thread", "sync"] }
