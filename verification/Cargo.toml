[package]
name = "datum_revisions"
version = "0.1.0"
edition = "2021"
publish = false

[dependencies]
hdk = "=0.4.4"
hdi = "=0.5.4"
serde = { version = "1", features = ["derive"] }
