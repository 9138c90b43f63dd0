[package]
name = "mcp_servers"
version = "0.1.0"
edition = "2021"
publish = false

[dependencies]
anyhow = "=1.0.104"
base64 = "=0.22.1"
clap = { version = "=4.6.7", features = ["derive"] }
dotenv = "=0.15.0"
mcp-core = { version = "=0.1.50", features = ["sse"] }
pdf-extract = "=0.12.1"
reqwest = { version = "=0.12.28", default-features = false, features = ["json", "rustls-tls"] }
serde_json = "=1.0.154"
serenity = { version = "=0.12.5", default-features = false, features = ["builder", "http", "model", "rustls_backend"] }
tokio = { version = "=1.54.1", features = ["full"] }
tracing = "=0.1.44"
tracing-subscriber = "=0.3.23"
twitter-v2 = { version = "=0.1.8", default-features = false, features = ["oauth2", "rustls-tls"] }
url = "=2.5.8"
urlencoding = "=2.1.3"
