[package]
name = "bureaucrat"
version = "0.1.0"
edition = "2021"
publish = false

[dependencies]
anyhow = "1"
clap = { version = "4", features = ["derive"] }
config = "*"
deadpool-postgres = "*"
deadpool-redis = "*"
derivative = "2"
env_logger = "*"
lazy_static = "1"
log = "0.4"
poise = "0.6"
serde = { version = "1", features = ["derive"] }
static_dir = "*"
tokio = { version = "1", features = ["macros", "rt-multi-thread"] }
tokio-postgres = "0.7"
warp = { version = "0.3", features = ["tls"] }
