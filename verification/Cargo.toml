[package]
name = "flashcards"
version = "0.1.0"
edition = "2021"
publish = false

[dependencies]
bcrypt = "*"
clap = { version = "4", features = ["derive"] }
colored = "*"
dotenv = "0.15"
sqlx = { version = "*", default-features = false, features = ["runtime-tokio", "sqlite"] }
tokio = { version = "1", features = ["macros", "rt-multi-thread"] }
