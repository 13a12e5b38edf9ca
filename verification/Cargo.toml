[package]
name = "thequotebook"
version = "0.1.0"
edition = "2021"
publish = false

[dependencies]
jsonwebtoken = { version = "=10.3.0", features = ["rust_crypto"] }
serde_json = "=1.0.151"
http = "=1.5.0"
md5 = "=0.8.1"
axum = "*"
tokio = { version = "*", features = ["rt-multi-thread", "macros", "net"] }
tower-cookies = "*"
sqlx = { version = "*", default-features = false, features = ["runtime-tokio", "postgres", "chrono", "macros"] }
serde = { version = "*", features = ["derive"] }
toml = "*"
jsonwebtoken-google = "*"
pulldown-cmark = "*"
pulldown-cmark-escape = "*"
atom_syndication = "*"
chrono = "*"
