[package]
name = "lalamove"
version = "0.1.0"
edition = "2021"
publish = false

[dependencies]
serde_json = "=1.0.151"
hmac = "=0.13.0"
sha2 = "=0.11.0"
hex = "=0.4.3"
rusty-money = "=0.4.2"
http = "=1.5.0"
phonenumber = "=0.3.10"
