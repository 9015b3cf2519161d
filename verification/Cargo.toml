[package]
name = "librarian"
version = "0.1.0"
edition = "2021"
publish = false

[dependencies]
claxon = "=0.4.3"
hound = "=3.5.1"
minimp3 = "=0.5.2"
rtag = "=0.3.5"
cpal = "=0.18.2"
sqlx = { version = "=0.9.0", default-features = false, features = ["runtime-tokio", "sqlite"] }
tokio = { version = "=1.53.2", features = ["full"] }
tokio-stream = "=0.1.19"
futures = "=0.3.34"
toml = "=1.1.7"
serde = "=1.0.229"
serde_derive = "=1.0.229"
directories-next = "=2.0.0"

[dev-dependencies]
tempfile = "3"
