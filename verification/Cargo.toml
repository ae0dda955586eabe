[package]
name = "qb_backend"
version = "0.1.0"
edition = "2021"
publish = false

[dependencies]
argon2 = "0.5"
rand = "0.8"
rand_core = { version = "0.6", features = ["getrandom"] }
actix-web = { version = "4", default-features = false, features = ["macros"] }
http-api-problem = { version = "0.57", features = ["actix-web"] }
serde = { version = "1", features = ["derive"] }
serde_json = "1"
redis = { version = "0.23", features = ["r2d2"] }
r2d2 = "0.8"
sea-orm = { version = "0.12", default-features = false, features = ["macros", "sqlx-postgres", "runtime-tokio-rustls"] }
sea-orm-migration = { version = "0.12", default-features = false, features = ["runtime-tokio-rustls", "sqlx-postgres"] }
async-trait = "0.1"
dotenv = "0.15"
tracing = "0.1"
tracing-subscriber = "0.3"
tracing-unwrap = "*"
