[package]
name = "nt_server"
version = "0.1.0"
edition = "2021"
publish = false

[dependencies]
argon2 = { version = "=0.5.3", features = ["std"] }
uuid = { version = "=1.29.1", features = ["v4"] }
chrono = "=0.4.45"
actix-web = { version = "=4.18.1", default-features = false, features = ["macros", "cookies", "compress-gzip"] }
async-graphql = "=7.2.1"
async-graphql-actix-web = "=7.2.1"
async-stream = "=0.3.6"
futures = "=0.3.34"
neo4rs = "=0.6.2"
jsonwebtoken = "=9.3.1"
serde = "=1.0.229"
serde_derive = "=1.0.229"
serde_json = "=1.0.154"
dotenvy = "=0.15.7"
env_logger = "=0.10.2"
