[package]
name = "media_tracker"
version = "0.1.0"
edition = "2021"
publish = false

[dependencies]
anyhow = "1"
async-graphql = { version = "*", default-features = false, features = ["chrono"] }
async-trait = "0.1"
chrono = { version = "0.4", default-features = false, features = ["std", "serde"] }
sea-orm = { version = "0.11", default-features = false, features = ["macros", "with-chrono", "with-json"] }
serde = { version = "1", features = ["derive"] }
serde_json = "1"
serde_with = { version = "*", default-features = false, features = ["std", "macros", "chrono_0_4"] }
surf = { version = "*", default-features = false }
