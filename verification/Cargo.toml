[package]
name = "z2prod"
version = "0.1.0"
edition = "2021"
publish = false

[dependencies]
rand = "=0.8.8"
actix-web = { version = "=4.18.1", default-features = false, features = ["macros"] }
sqlx = { version = "=0.7.4", default-features = false, features = ["runtime-tokio", "postgres", "uuid", "chrono"] }
uuid = { version = "=1.29.0", features = ["v4"] }
chrono = { version = "=0.4.45", default-features = false, features = ["clock"] }
serde = { version = "=1.0.229", features = ["derive"] }
secrecy = { version = "=0.8.0", features = ["serde"] }
tokio = { version = "=1.54.1", features = ["macros", "rt-multi-thread"] }
reqwest = { version = "0.12", default-features = false, features = ["json"] }
