[package]
name = "spark_deploy"
version = "0.1.0"
edition = "2021"
publish = false

[dependencies]
rcgen = "*"
rustls-pemfile = "*"
rustls-pki-types = "*"
rustls = "*"
tokio-rustls = "*"
webpki-roots = "*"
tokio = { version = "*", features = ["full"] }
axum = "*"
tower = { version = "*", features = ["util"] }
tower-http = { version = "*", features = ["fs"] }
reqwest = { version = "*", default-features = false, features = ["rustls-tls"] }
serde = { version = "*", features = ["derive"] }
serde_json = "*"
toml = "*"
flate2 = "*"
tar = "*"
chrono = "*"
clap = { version = "*", features = ["derive"] }
anyhow = "*"
tracing = "*"
tracing-subscriber = { version = "*", features = ["env-filter"] }
