[package]
name = "mymemo_clipboard"
version = "0.2.5"
edition = "2021"
publish = false

[dependencies]
sha2 = "0.10"
aes-gcm = "0.10"
base64 = "0.22"
getrandom = "0.3"
url = "2"
mime_guess = "2"
serde = { version = "1", features = ["derive"] }
serde_json = "1"
chrono = { version = "0.4", default-features = false, features = ["clock", "std"] }
image = { version = "0.25", default-features = false, features = ["png", "jpeg"] }
arboard = { version = "3", default-features = false }
keyring = "3"
libc = "0.2"
reqwest = { version = "0.12", default-features = false, features = ["blocking", "json", "rustls-tls"] }
