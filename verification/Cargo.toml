[package]
name = "blog"
version = "0.1.0"
edition = "2021"
publish = false

[dependencies]
rocket = { version = "0.5", features = ["json"] }
diesel = { version = "2", features = ["postgres", "r2d2"] }
dotenvy = "0.15"
