[package]
name = "accountcat"
version = "0.1.0"
edition = "2021"
publish = false

[dependencies]
rcgen = { version = "=0.14.10", features = ["x509-parser"] }
time = "=0.3.55"
x509-parser = "=0.18.1"
openssl = "=0.10.81"
rand = "=0.10.3"
rustls-pki-types = "=1.15.1"
serde = { version = "=1.0.229", features = ["derive"] }
toml = "=1.1.7"
sqlx = { version = "=0.9.0", default-features = false, features = ["postgres", "runtime-tokio"] }
tokio = { version = "=1.53.2", features = ["rt-multi-thread", "macros"] }

[dev-dependencies]
rustls-webpki = { version = "=0.103.15", features = ["ring"] }
