[package]
name = "yards"
version = "0.1.0"
edition = "2021"
publish = false

[dependencies]
ipnetwork = "*"
sha2 = "0.10"
base64 = "0.22"
passwords = "3"
serde = { version = "1", features = ["derive"] }
serde_json = "1"
chrono = { version = "0.4", features = ["serde"] }
actix-web = "4"
sqlx = { version = "0.8", default-features = false, features = ["runtime-tokio", "postgres", "chrono", "derive"] }
tokio = { version = "1", features = ["macros", "rt-multi-thread", "time"] }
reqwest = { version = "0.12", default-features = false, features = ["json"] }
tera = { version = "1", default-features = false }
anyhow = "1"
utoipa = "5"
