[package]
name = "todo_api"
version = "0.1.0"
edition = "2021"
publish = false

[dependencies]
actix-web = "=4.18.1"
diesel = { version = "=2.3.14", features = ["postgres", "r2d2", "uuid"] }
diesel_migrations = "=2.3.2"
dotenv = "=0.15.0"
env_logger = "=0.10.2"
log = "=0.4.34"
openssl = "=0.10.81"
r2d2 = "=0.8.10"
serde = { version = "=1.0.229", features = ["derive"] }
utoipa = { version = "=3.5.0", features = ["actix_extras"] }
utoipa-swagger-ui = { version = "=3.1.5", features = ["actix-web"] }
uuid = { version = "=1.29.0", features = ["v4", "serde"] }
