[package]
name = "kehrkraft"
version = "0.6.0"
edition = "2021"
publish = false

[dependencies]
age = "=0.12.1"
askama = "=0.16.1"
axum = "=0.8.9"
base64 = "=0.23.1"
chrono = "=0.4.45"
fast_qr = { version = "=0.14.0", features = ["svg"] }
form_urlencoded = "=1.2.2"
object_store = { version = "=0.14.2", features = ["aws"] }
rand = "=0.10.3"
rustls = { version = "=0.23.46", default-features = false, features = ["ring", "std"] }
serde = { version = "=1.0.229", features = ["derive"] }
sqlx = { version = "=0.9.0", default-features = false, features = ["sqlite", "runtime-tokio", "macros", "migrate"] }
tokio = { version = "=1.54.1", features = ["full"] }
tower-http = { version = "=0.7.1", features = ["limit", "compression-full", "trace"] }
tracing = "=0.1.44"
tracing-subscriber = { version = "=0.3.23", features = ["env-filter"] }
