[package]
name = "homebot"
version = "0.1.0"
edition = "2021"
publish = false

[dependencies]
base64 = "0.13"
bson = "2.4"
byteorder = "1"
env_logger = { version = "0.8", default-features = false }
futures = "0.3"
log = "0.4"
mongodb = "2.4"
num-bigint = "0.4"
rand = "0.8"
rand_core = { version = "0.6", features = ["getrandom"] }
reqwest = { version = "0.11", default-features = false, features = ["json", "rustls-tls"] }
rsa = "0.4"
rsa-der = "0.2"
serde = { version = "1", features = ["derive"] }
serde_json = "1"
serenity = { version = "0.10", features = ["unstable_discord_api", "voice"] }
sha1 = "0.10"
songbird = "0.1"
tokio = { version = "1", features = ["full"] }
toml = "0.5"
uuid = { version = "1", features = ["serde"] }
