[package]
name = "akron_core"
version = "0.1.0"
edition = "2021"
publish = false

[dependencies]
hex = "=0.4.3"
serde = { version = "*", features = ["derive"] }
serde_json = "=1.0.151"
spaces_protocol = "=0.5.0"
spaces_client = "=0.5.0"
spaces_wallet = "=0.5.0"
jsonrpsee = { version = "=0.22.5", features = ["http-client"] }
tokio = { version = "*", features = ["rt", "fs"] }
directories = "*"
