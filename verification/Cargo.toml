[package]
name = "atlas_agents"
version = "0.1.0"
edition = "2021"
publish = false

[dependencies]
neo4rs = "*"
reqwest = { version = "*", default-features = false, features = ["json", "rustls-tls"] }
serde = { version = "*", features = ["derive"] }
serde_json = "*"
tokio = { version = "*", features = ["macros", "rt-multi-thread", "sync", "time"] }
