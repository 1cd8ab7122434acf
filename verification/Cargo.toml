[package]
name = "rocket-raw-response"
version = "0.1.0"
edition = "2021"
publish = false

[dependencies]
mime = "=0.3.17"
mime_guess = "=2.0.5"
okapi = "0.7"
rocket = "0.5"
rocket_okapi = "0.9"

[dev-dependencies]
url-escape = "=0.1.2"
