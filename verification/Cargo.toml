[package]
name = "identity"
version = "0.1.0"
edition = "2021"
publish = false

[dependencies]
bcrypt = "=0.19.3"
# The library draws the random bytes of a new object key itself, so that a
# failing system random source comes back as `None` instead of the panic that
# `uuid::Uuid::new_v4` raises; uuid then builds the version 4 UUID from them.
getrandom = "=0.4.3"
uuid = { version = "=1.29.0", features = ["v4"] }
serde = { version = "=1.0.229", features = ["derive"] }
toml = "=1.1.8"
anyhow = "=1.0.104"
tokio = { version = "=1.54.1", features = ["macros", "rt-multi-thread"] }
sqlx = { version = "=0.9.0", default-features = false, features = ["postgres", "runtime-tokio", "migrate"] }
aws-config = { version = "=1.13.0", features = ["behavior-version-latest"] }
aws-sdk-s3 = "=1.157.0"
tonic = "=0.14.9"
tower-http = { version = "=0.7.1", features = ["trace"] }
tracing = "=0.1.44"
tracing-subscriber = "=0.3.23"
