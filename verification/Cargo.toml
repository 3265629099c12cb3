[package]
name = "redirect_scheme"
version = "0.1.0"
edition = "2021"
publish = false

[dependencies]
actix-web = { version = "4", default-features = false }
actix-service = "2"
futures = "0.3"
log = "0.4"
