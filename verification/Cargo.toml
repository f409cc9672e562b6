[package]
name = "mailgun_routes"
version = "0.1.0"
edition = "2021"
publish = false

[dependencies]
serde_json = "=1.0.151"
secrecy = "=0.10.3"
reqwest = { version = "=0.13.5", default-features = false, features = ["blocking", "form"] }
log = "=0.4.34"
anyhow = "=1.0.104"
