[package]
name = "profile_backend"
version = "0.1.0"
edition = "2021"
publish = false

[dependencies]
uuid = { version = "1", features = ["serde"] }
argon2 = "0.5"
rand_core = { version = "0.6", features = ["getrandom"] }
chrono = { version = "0.4", features = ["serde"] }
log = "0.4"
serde = { version = "1", features = ["derive"] }
serde_json = "1"
fern = "0.6"
humantime = "2"
strip-ansi-escapes = "0.2"
diesel = { version = "2", features = ["postgres", "chrono"] }
rocket = { version = "0.5", features = ["json"] }
rocket_cors = "0.6"
rocket_ws = "0.1"
utoipa = "4"
utoipa-swagger-ui = { version = "7", features = ["rocket"] }
reqwest = { version = "0.12", default-features = false }
