[package]
name = "hypermarket"
version = "0.1.0"
edition = "2021"
publish = false

[dependencies]
ethers = { version = "2.0", default-features = false }
sha3 = "0.10"
hex = "0.4"
clap = { version = "4", features = ["derive", "env"] }
tokio = { version = "1", features = ["macros", "rt-multi-thread", "sync", "time"] }
async-trait = "0.1"
serde = { version = "1", features = ["derive"] }
thiserror = "1"
dotenv = "0.15"
env_logger = "0.11"
log = "0.4"
