[package]
name = "branch_index"
version = "0.1.0"
edition = "2021"
publish = false

[dependencies]
actix-cors = "=0.7.2"
actix-web = { version = "=4.15.0", default-features = false, features = ["macros"] }
ctrlc = "=3.5.2"
git2 = { version = "=0.21.0", default-features = false }
octocrab = "=0.44.1"
redis = "=1.7.1"
reqwest = { version = "=0.12.28", default-features = false, features = ["json", "rustls-tls"] }
serde = { version = "=1.0.229", features = ["derive"] }
serde_json = "=1.0.151"
