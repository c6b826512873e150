[package]
name = "skyeng_sync"
version = "0.1.0"
edition = "2021"
publish = false

[dependencies]
scraper = "=0.27.0"
reqwest = { version = "=0.13.5", default-features = false, features = ["cookies", "json", "form", "query"] }
tokio = { version = "=1.53.2", features = ["macros", "rt-multi-thread"] }
serde = { version = "=1.0.229", features = ["derive"] }
serde_json = "=1.0.151"
chrono = "=0.4.45"
log = "=0.4.34"
env_logger = "=0.11.11"
dotenv = "=0.15.0"
thiserror = "=2.0.21"
