[package]
name = "darkmap"
version = "0.1.0"
edition = "2021"
publish = false

[dependencies]
geo-types = "=0.7.20"
geozero = { version = "=0.11.0", default-features = false, features = ["with-geo", "with-wkb"] }
serde = { version = "=1.0.229", features = ["derive"] }
serde_json = "=1.0.154"
dotenv = "=0.15.0"
duckdb = "1.2"
