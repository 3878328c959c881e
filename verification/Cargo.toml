[package]
name = "cdn"
version = "0.1.0"
edition = "2021"
publish = false

[dependencies]
hmac-sha512 = "=1.1.13"
async-compression = { version = "=0.4.52", features = ["tokio", "zstd"] }
futures = "=0.3.34"
tokio = { version = "=1.54.1", features = ["full"] }
tree_magic = "=0.2.3"
rand = "=0.10.3"
ferrischat_common = "=0.3.0"
axum = { version = "=0.8.9", features = ["multipart"] }
http = "=1.5.0"
bytes = "=1.12.1"
reqwest = { version = "=0.13.5", default-features = false, features = ["json", "multipart"] }
deadpool-redis = "=0.23.1"
sqlx = { version = "=0.9.0", default-features = false, features = ["runtime-tokio", "postgres", "bigdecimal"] }
num-bigint = "=0.4.8"
argon2-async = "=0.2.0"
stretto = { version = "=0.9.0", features = ["async", "tokio"] }
sysinfo = "=0.40.1"
clap = "=4.6.7"
tracing = "=0.1.44"
tracing-subscriber = { version = "=0.3.23", features = ["env-filter"] }
tower-http = { version = "=0.7.1", features = ["trace"] }
serde = { version = "=1.0.229", features = ["derive"] }
simd-json = "=0.19.0"
base64 = "=0.23.1"
