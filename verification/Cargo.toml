[package]
name = "taille_auth"
version = "0.1.0"
edition = "2021"
publish = false

[dependencies]
flume = "=0.12.0"
rayon = "=1.12.0"
bcrypt = "=0.19.3"
subtle = "=2.6.1"
nanoid = "=0.5.0"
chrono = "=0.4.45"
serde = { version = "=1.0.229", features = ["derive"] }
jsonwebtoken = "=11.1.0"
actix-web = "=4.15.0"
actix-web-httpauth = "=0.8.3"
actix-governor = "=0.10.0"

[dev-dependencies]
fake = "=5.1.0"
