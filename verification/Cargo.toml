[package]
name = "rusqlite"
version = "0.1.0"
edition = "2021"
publish = false

[dependencies]
hashlink = "=0.10.0"
sha1 = "=0.10.7"
sha2 = "=0.10.9"
hmac = "=0.12.1"
pbkdf2 = "=0.12.2"
aes = "=0.8.4"
cbc = { version = "=0.1.2", features = ["block-padding", "alloc"] }
rand = "=0.9.5"
sqlite3-parser = "=0.17.0"
bumpalo = "=3.20.3"
fallible-iterator = "=0.3.0"
time = { version = "0.3", features = ["parsing", "formatting"] }
jiff = "0.2"
ulid = "1"
camino = "1"
