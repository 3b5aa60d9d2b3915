[package]
name = "auth_core"
version = "0.1.0"
edition = "2021"
publish = false

[dependencies]
actix-cors = "=0.7.2"
actix-web = { version = "=4.18.1", default-features = false, features = ["macros", "cookies"] }
argon2 = { version = "=0.5.3", features = ["std"] }
chrono = { version = "=0.4.45", features = ["serde"] }
dotenv = "=0.15.0"
env_logger = "=0.11.11"
jsonwebtoken = { version = "=10.4.0", default-features = false, features = ["rust_crypto"] }
openssl-probe = "=0.1.6"
serde = { version = "=1.0.229", features = ["derive"] }
serde_json = "=1.0.154"
sqlx = { version = "=0.8.6", default-features = false, features = ["runtime-tokio", "postgres", "chrono", "uuid", "macros", "migrate"] }
utoipa = { version = "=6.0.0", features = ["chrono"] }
utoipa-rapidoc = { version = "=7.0.0", features = ["actix-web"] }
utoipa-redoc = { version = "=7.0.0", features = ["actix-web"] }
utoipa-swagger-ui = { version = "*", features = ["actix-web", "vendored"] }
uuid = { version = "=1.29.0", features = ["serde", "v4"] }
validator = { version = "=0.18.1", features = ["derive"] }
