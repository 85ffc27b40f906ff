[package]
name = "cot_auth"
version = "0.1.0"
edition = "2021"
publish = false

[dependencies]
password-auth = "*"
hmac = "*"
sha2 = "*"
thiserror = "*"
async-trait = "*"

[dev-dependencies]
argon2 = "*"
