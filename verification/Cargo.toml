[package]
name = "loadtest_core"
version = "0.1.0"
edition = "2021"
publish = false

[dependencies]
anyhow = "=1.0.104"
chrono = "=0.4.45"
clap = { version = "=4.6.7", features = ["derive", "env"] }
goose = "=0.18.1"
humantime = "=2.4.0"
log = "=0.4.34"
openid = "=0.24.0"
packageurl = "=0.7.1"
rand = "=0.10.3"
reqwest = { version = "=0.12.28", default-features = false, features = ["json"] }
serde = { version = "=1.0.229", features = ["derive"] }
serde_json = "=1.0.151"
serde_json5 = "=0.2.1"
sqlx = { version = "=0.9.0", default-features = false, features = ["postgres", "runtime-tokio", "json"] }
tokio = { version = "=1.53.2", features = ["full"] }
urlencoding = "=2.1.3"
