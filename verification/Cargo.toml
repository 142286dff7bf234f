[package]
name = "opa_client"
version = "0.1.0"
edition = "2021"
publish = false

[dependencies]
async-trait = "=0.1.92"
clap = { version = "=4.6.7", features = ["derive"] }
reqwest = { version = "=0.12.28", default-features = false, features = ["json", "rustls-tls"] }
serde = { version = "=1.0.229", features = ["derive"] }
serde_json = { version = "=1.0.154", features = ["preserve_order"] }
thiserror = "=1.0.69"
tokio = { version = "=1.54.1", features = ["macros", "rt-multi-thread"] }
url = "=2.5.8"
